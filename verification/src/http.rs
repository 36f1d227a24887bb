//! Recognising an HTTP request by its first bytes, and replacing the value
//! of its `User-Agent` header.

use vstd::prelude::*;
use vstd::slice::slice_subrange;
use vstd::string::StringSliceAdditionalSpecFns;
use vstd::utf8::is_ascii_chars;
use vstd::utf8::is_ascii_chars_encode_utf8;
use bytes::BytesMut;
use crate::buffer::{buffer_bytes, buffer_from_slice};
use crate::search::{
    find_byte, find_bytes, is_first_occurrence, is_run_end, lemma_absent_is_not_found,
    lemma_first_occurrence_is_found, lemma_run_end_exists, lemma_run_end_is_unique, occurs,
    occurs_at, spec_find, spec_run_end,
};

verus! {

/// A header value longer than this many bytes is left as it is.
pub const MAX_USER_AGENT_LEN: usize = 1024;

/// The byte that ends a header value: carriage return.
pub const CARRIAGE_RETURN: u8 = 13;

/// The bytes of a text of ASCII characters.
pub open spec fn ascii_bytes(chars: Seq<char>) -> Seq<u8> {
    Seq::new(chars.len(), |i: int| chars[i] as u8)
}

/// Whether `prefix` is the beginning of `buf`.
pub open spec fn spec_starts_with(buf: Seq<u8>, prefix: Seq<u8>) -> bool {
    prefix.len() <= buf.len() && buf.subrange(0, prefix.len() as int) == prefix
}

/// The request methods that are recognised, each followed by a space.
pub open spec fn method_tokens() -> Seq<Seq<u8>> {
    seq![
        ascii_bytes("GET "@),
        ascii_bytes("POST "@),
        ascii_bytes("PUT "@),
        ascii_bytes("PATCH "@),
        ascii_bytes("HEAD "@),
        ascii_bytes("DELETE "@),
        ascii_bytes("TRACE "@),
        ascii_bytes("OPTIONS "@),
        ascii_bytes("CONNECT "@),
    ]
}

/// A buffer begins an HTTP request where one of the method tokens is its
/// prefix.
pub open spec fn spec_is_http_request(buf: Seq<u8>) -> bool {
    exists|i: int|
        0 <= i < method_tokens().len() && spec_starts_with(buf, #[trigger] method_tokens()[i])
}

/// The name of the header, with the colon and space that follow it.
pub open spec fn header_name() -> Seq<u8> {
    ascii_bytes("User-Agent: "@)
}

/// The client identifiers whose requests are left as they are.
pub open spec fn whitelist() -> Seq<Seq<u8>> {
    seq![
        ascii_bytes("MicroMessenger Client"@),
        ascii_bytes("ByteDancePcdn"@),
        ascii_bytes("Go-http-client/1.1"@),
        ascii_bytes("Bilibili Freedoooooom/MarkII"@),
    ]
}

/// An ASCII capital letter as its small letter, any other byte as itself.
pub open spec fn spec_ascii_lower(b: u8) -> u8 {
    if 65 <= b <= 90 {
        (b + 32) as u8
    } else {
        b
    }
}

/// Equal length, and equal byte by byte but for the case of ASCII letters.
pub open spec fn spec_eq_ignore_ascii_case(a: Seq<u8>, b: Seq<u8>) -> bool {
    &&& a.len() == b.len()
    &&& forall|k: int| 0 <= k < a.len() ==> spec_ascii_lower(a[k]) == spec_ascii_lower(b[k])
}

/// The whole value equals an entry of the whitelist, letter case aside.
pub open spec fn spec_in_whitelist(value: Seq<u8>) -> bool {
    exists|i: int|
        0 <= i < whitelist().len() && spec_eq_ignore_ascii_case(value, #[trigger] whitelist()[i])
}

/// The byte range `[start, end)` of a header value in a buffer.
#[derive(Clone, Copy, Debug, PartialEq, Eq, Structural)]
pub struct UserAgentSpan {
    pub start: usize,
    pub end: usize,
}

/// Where the `User-Agent` value of a buffer lies: it begins behind the first
/// occurrence of the header's name, and ends before the first carriage
/// return from there on, or with the buffer where none follows.
pub open spec fn spec_user_agent_span(buf: Seq<u8>) -> Option<(int, int)> {
    match spec_find(buf, header_name()) {
        Some(pos) => {
            let start = pos + header_name().len();
            Some((start, spec_run_end(buf, CARRIAGE_RETURN, start)))
        },
        None => None,
    }
}

/// `buf` with the bytes of `[start, end)` replaced by `with`.
pub open spec fn spec_splice(buf: Seq<u8>, start: int, end: int, with: Seq<u8>) -> Seq<u8> {
    buf.subrange(0, start) + with + buf.subrange(end, buf.len() as int)
}

/// Why a buffer is forwarded as it is. None of these is a failure.
#[derive(Clone, Copy, Debug, PartialEq, Eq, Structural)]
pub enum RewriteSkipped {
    /// The buffer does not hold the header's name.
    HeaderAbsent,
    /// The value is longer than `MAX_USER_AGENT_LEN` bytes.
    Oversized,
    /// The whitelist holds the value.
    Whitelisted,
}

/// What a rewrite comes to: the buffer with the header's value replaced by
/// `user_agent`, or the reason why the buffer is left as it is.
pub open spec fn spec_rewrite_outcome(buf: Seq<u8>, user_agent: Seq<u8>) -> Result<
    Seq<u8>,
    RewriteSkipped,
> {
    match spec_user_agent_span(buf) {
        Some((start, end)) => if end - start > MAX_USER_AGENT_LEN {
            Err(RewriteSkipped::Oversized)
        } else if spec_in_whitelist(buf.subrange(start, end)) {
            Err(RewriteSkipped::Whitelisted)
        } else {
            Ok(spec_splice(buf, start, end, user_agent))
        },
        None => Err(RewriteSkipped::HeaderAbsent),
    }
}

/// Why `buf` is left as it is, where it is.
pub open spec fn spec_skipped(buf: Seq<u8>, user_agent: Seq<u8>) -> Option<RewriteSkipped> {
    match spec_rewrite_outcome(buf, user_agent) {
        Ok(_) => None,
        Err(reason) => Some(reason),
    }
}

/// The buffer that is forwarded in place of `buf`, given the replacement
/// value `user_agent`.
pub open spec fn spec_rewrite(buf: Seq<u8>, user_agent: Seq<u8>) -> Seq<u8> {
    match spec_rewrite_outcome(buf, user_agent) {
        Ok(rewritten) => rewritten,
        Err(_) => buf,
    }
}

/// The bytes of a text that holds ASCII characters only.
fn text_bytes(s: &str) -> (b: &[u8])
    requires
        is_ascii_chars(s@),
    ensures
        b@ == ascii_bytes(s@),
{
    let b = s.as_bytes();
    proof {
        is_ascii_chars_encode_utf8(s@);
        assert(b@ =~= ascii_bytes(s@));
    }
    b
}

fn starts_with(buf: &[u8], prefix: &[u8]) -> (r: bool)
    ensures
        r == spec_starts_with(buf@, prefix@),
{
    if prefix.len() > buf.len() {
        return false;
    }
    let mut i: usize = 0;
    while i < prefix.len()
        invariant
            i <= prefix.len() <= buf.len(),
            forall|k: int| 0 <= k < i ==> buf@[k] == prefix@[k],
        decreases prefix.len() - i,
    {
        if buf[i] != prefix[i] {
            assert(buf@.subrange(0, prefix@.len() as int)[i as int] != prefix@[i as int]);
            return false;
        }
        i += 1;
    }
    assert(buf@.subrange(0, prefix@.len() as int) =~= prefix@);
    true
}

/// Whether the buffer begins with a request method and a space.
pub fn is_http_request(buf: &[u8]) -> (r: bool)
    ensures
        r == spec_is_http_request(buf@),
{
    proof {
        reveal_strlit("GET ");
        reveal_strlit("POST ");
        reveal_strlit("PUT ");
        reveal_strlit("PATCH ");
        reveal_strlit("HEAD ");
        reveal_strlit("DELETE ");
        reveal_strlit("TRACE ");
        reveal_strlit("OPTIONS ");
        reveal_strlit("CONNECT ");
    }
    let r = starts_with(buf, text_bytes("GET "))
        || starts_with(buf, text_bytes("POST "))
        || starts_with(buf, text_bytes("PUT "))
        || starts_with(buf, text_bytes("PATCH "))
        || starts_with(buf, text_bytes("HEAD "))
        || starts_with(buf, text_bytes("DELETE "))
        || starts_with(buf, text_bytes("TRACE "))
        || starts_with(buf, text_bytes("OPTIONS "))
        || starts_with(buf, text_bytes("CONNECT "));
    assert(method_tokens().len() == 9);
    r
}

fn ascii_lower(b: u8) -> (r: u8)
    ensures
        r == spec_ascii_lower(b),
{
    if 65 <= b && b <= 90 {
        b + 32
    } else {
        b
    }
}

fn eq_ignore_ascii_case(a: &[u8], b: &[u8]) -> (r: bool)
    ensures
        r == spec_eq_ignore_ascii_case(a@, b@),
{
    if a.len() != b.len() {
        return false;
    }
    let mut i: usize = 0;
    while i < a.len()
        invariant
            i <= a.len() == b.len(),
            forall|k: int| 0 <= k < i ==> spec_ascii_lower(a@[k]) == spec_ascii_lower(b@[k]),
        decreases a.len() - i,
    {
        if ascii_lower(a[i]) != ascii_lower(b[i]) {
            return false;
        }
        i += 1;
    }
    true
}

/// Whether the whole of `buf` equals an entry of the whitelist, letter case
/// aside.
pub fn check_is_in_whitelist(buf: &[u8]) -> (r: bool)
    ensures
        r == spec_in_whitelist(buf@),
{
    proof {
        reveal_strlit("MicroMessenger Client");
        reveal_strlit("ByteDancePcdn");
        reveal_strlit("Go-http-client/1.1");
        reveal_strlit("Bilibili Freedoooooom/MarkII");
    }
    let r = eq_ignore_ascii_case(buf, text_bytes("MicroMessenger Client"))
        || eq_ignore_ascii_case(buf, text_bytes("ByteDancePcdn"))
        || eq_ignore_ascii_case(buf, text_bytes("Go-http-client/1.1"))
        || eq_ignore_ascii_case(buf, text_bytes("Bilibili Freedoooooom/MarkII"));
    assert(whitelist().len() == 4);
    r
}

/// Locates the value of the `User-Agent` header: `None` where the buffer
/// does not hold the header's name.
pub fn find_user_agent(buf: &[u8]) -> (r: Option<UserAgentSpan>)
    ensures
        match r {
            Some(span) => spec_user_agent_span(buf@) == Some((span.start as int, span.end as int))
                && span.start <= span.end <= buf@.len(),
            None => spec_user_agent_span(buf@) is None,
        },
        r is None <==> !occurs(buf@, header_name()),
{
    proof {
        reveal_strlit("User-Agent: ");
    }
    let name = text_bytes("User-Agent: ");
    let len = buf.len();
    let start = match find_bytes(buf, name) {
        Some(pos) => {
            proof {
                lemma_first_occurrence_is_found(buf@, name@, pos as int);
                assert(occurs_at(buf@, name@, pos as int));
            }
            pos + name.len()
        },
        None => {
            proof {
                lemma_absent_is_not_found(buf@, name@);
            }
            return None;
        },
    };
    let rest = slice_subrange(buf, start, len);
    let end = match find_byte(CARRIAGE_RETURN, rest) {
        Some(offset) => start + offset,
        None => len,
    };
    proof {
        assert forall|k: int| start <= k < end implies buf@[k] != CARRIAGE_RETURN by {
            assert(buf@[k] == rest@[k - start]);
        }
        if end < buf@.len() {
            assert(buf@[end as int] == rest@[end - start]);
        }
        assert(is_run_end(buf@, CARRIAGE_RETURN, start as int, end as int));
        lemma_run_end_is_unique(buf@, CARRIAGE_RETURN, start as int, end as int);
    }
    Some(UserAgentSpan { start, end })
}

/// Builds the buffer in which the value of the `User-Agent` header is
/// replaced by `user_agent`, or says why the buffer is to be left as it is:
/// it holds no such header, the value is longer than `MAX_USER_AGENT_LEN`
/// bytes, or the whitelist holds the value.
pub fn rewrite_user_agent(buf: &[u8], user_agent: &[u8]) -> (r: Result<Vec<u8>, RewriteSkipped>)
    ensures
        match r {
            Ok(rewritten) => spec_rewrite_outcome(buf@, user_agent@) == Ok::<
                Seq<u8>,
                RewriteSkipped,
            >(rewritten@),
            Err(reason) => spec_rewrite_outcome(buf@, user_agent@) == Err::<
                Seq<u8>,
                RewriteSkipped,
            >(reason),
        },
{
    let span = match find_user_agent(buf) {
        Some(span) => span,
        None => {
            return Err(RewriteSkipped::HeaderAbsent);
        },
    };
    let value = slice_subrange(buf, span.start, span.end);
    if value.len() > MAX_USER_AGENT_LEN {
        return Err(RewriteSkipped::Oversized);
    }
    if check_is_in_whitelist(value) {
        return Err(RewriteSkipped::Whitelisted);
    }
    let mut rewritten: Vec<u8> = Vec::new();
    rewritten.extend_from_slice(slice_subrange(buf, 0, span.start));
    rewritten.extend_from_slice(user_agent);
    rewritten.extend_from_slice(slice_subrange(buf, span.end, buf.len()));
    assert(rewritten@ =~= spec_splice(buf@, span.start as int, span.end as int, user_agent@));
    Ok(rewritten)
}

/// Replaces the value of the buffer's `User-Agent` header by `user_agent`.
/// The buffer stays as it is where it holds no such header, where the value
/// is longer than `MAX_USER_AGENT_LEN` bytes, and where the whitelist holds
/// the value.
pub fn modify_user_agent(buf: &mut BytesMut, user_agent: &str)
    ensures
        buffer_bytes(*final(buf)) == spec_rewrite(buffer_bytes(*old(buf)), user_agent.spec_bytes()),
        !occurs(buffer_bytes(*old(buf)), header_name()) ==> buffer_bytes(*final(buf))
            == buffer_bytes(*old(buf)),
        forall|start: int, end: int|
            spec_user_agent_span(buffer_bytes(*old(buf))) == Some((start, end)) && (end - start
                > MAX_USER_AGENT_LEN || spec_in_whitelist(
                buffer_bytes(*old(buf)).subrange(start, end),
            )) ==> buffer_bytes(*final(buf)) == buffer_bytes(*old(buf)),
{
    let outcome = rewrite_user_agent(BytesMut::as_ref(buf), user_agent.as_bytes());
    match outcome {
        Ok(rewritten) => {
            *buf = buffer_from_slice(rewritten.as_slice());
        },
        Err(_) => {},
    }
}

/// A buffer that begins with one of the method tokens is an HTTP request.
pub proof fn lemma_method_token_is_request(buf: Seq<u8>, i: int)
    requires
        0 <= i < method_tokens().len(),
        spec_starts_with(buf, method_tokens()[i]),
    ensures
        spec_is_http_request(buf),
{
}

/// A buffer that begins with none of the method tokens is no HTTP request.
pub proof fn lemma_no_method_token_is_no_request(buf: Seq<u8>)
    requires
        forall|i: int| 0 <= i < method_tokens().len() ==> !spec_starts_with(buf, method_tokens()[i]),
    ensures
        !spec_is_http_request(buf),
{
}

/// A buffer shorter than the shortest method token with its space, which is
/// four bytes long, is no HTTP request; the empty buffer is none.
pub proof fn lemma_short_buffer_is_no_request(buf: Seq<u8>)
    requires
        buf.len() < 4,
    ensures
        !spec_is_http_request(buf),
{
    reveal_strlit("GET ");
    reveal_strlit("POST ");
    reveal_strlit("PUT ");
    reveal_strlit("PATCH ");
    reveal_strlit("HEAD ");
    reveal_strlit("DELETE ");
    reveal_strlit("TRACE ");
    reveal_strlit("OPTIONS ");
    reveal_strlit("CONNECT ");
    assert forall|i: int| 0 <= i < method_tokens().len() implies method_tokens()[i].len()
        >= 4 by {}
}

/// A buffer in which the header's name and colon occur nowhere is forwarded
/// as it is.
pub proof fn lemma_rewrite_without_header(buf: Seq<u8>, user_agent: Seq<u8>)
    requires
        !occurs(buf, ascii_bytes("User-Agent:"@)),
    ensures
        spec_rewrite(buf, user_agent) == buf,
        spec_rewrite_outcome(buf, user_agent) == Err::<Seq<u8>, RewriteSkipped>(
            RewriteSkipped::HeaderAbsent,
        ),
{
    reveal_strlit("User-Agent:");
    reveal_strlit("User-Agent: ");
    let short = ascii_bytes("User-Agent:"@);
    assert forall|i: int| !occurs_at(buf, header_name(), i) by {
        if occurs_at(buf, header_name(), i) {
            assert forall|k: int| 0 <= k < short.len() implies buf.subrange(i, i + short.len())[k]
                == short[k] by {
                assert(buf.subrange(i, i + header_name().len())[k] == header_name()[k]);
            }
            assert(buf.subrange(i, i + short.len()) =~= short);
            assert(occurs_at(buf, short, i));
        }
    }
    lemma_absent_is_not_found(buf, header_name());
}

/// A buffer whose header value equals an entry of the whitelist, letter case
/// aside, is forwarded as it is.
pub proof fn lemma_rewrite_of_whitelisted(buf: Seq<u8>, user_agent: Seq<u8>, i: int)
    requires
        spec_user_agent_span(buf) is Some,
        0 <= i < whitelist().len(),
        spec_eq_ignore_ascii_case(
            buf.subrange(spec_user_agent_span(buf).unwrap().0, spec_user_agent_span(buf).unwrap().1),
            whitelist()[i],
        ),
    ensures
        spec_rewrite(buf, user_agent) == buf,
        spec_rewrite_outcome(buf, user_agent) == Err::<Seq<u8>, RewriteSkipped>(
            RewriteSkipped::Whitelisted,
        ),
{
    reveal_strlit("MicroMessenger Client");
    reveal_strlit("ByteDancePcdn");
    reveal_strlit("Go-http-client/1.1");
    reveal_strlit("Bilibili Freedoooooom/MarkII");
    let (start, end) = spec_user_agent_span(buf).unwrap();
    lemma_span_is_in_bounds(buf);
    assert(buf.subrange(start, end).len() == end - start);
    assert(whitelist()[i].len() <= MAX_USER_AGENT_LEN);
}

/// A buffer whose header value is longer than `MAX_USER_AGENT_LEN` bytes is
/// forwarded as it is.
pub proof fn lemma_rewrite_of_oversized(buf: Seq<u8>, user_agent: Seq<u8>)
    requires
        spec_user_agent_span(buf) is Some,
        spec_user_agent_span(buf).unwrap().1 - spec_user_agent_span(buf).unwrap().0
            > MAX_USER_AGENT_LEN,
    ensures
        spec_rewrite(buf, user_agent) == buf,
        spec_rewrite_outcome(buf, user_agent) == Err::<Seq<u8>, RewriteSkipped>(
            RewriteSkipped::Oversized,
        ),
{
}

/// A located value lies within the buffer, behind the header's name, and
/// holds no carriage return.
pub proof fn lemma_span_is_in_bounds(buf: Seq<u8>)
    requires
        spec_user_agent_span(buf) is Some,
    ensures
        ({
            let (start, end) = spec_user_agent_span(buf).unwrap();
            &&& header_name().len() <= start <= end <= buf.len()
            &&& is_first_occurrence(buf, header_name(), start - header_name().len())
            &&& is_run_end(buf, CARRIAGE_RETURN, start, end)
        }),
{
    let (start, end) = spec_user_agent_span(buf).unwrap();
    let pos = spec_find(buf, header_name()).unwrap();
    assert(is_first_occurrence(buf, header_name(), pos));
    lemma_run_end_exists(buf, CARRIAGE_RETURN, start, start);
}

/// A splice changes the bytes of the range only: what stood before the range
/// stands there still, the replacement follows, and what stood from the
/// range's end on follows the replacement.
pub proof fn lemma_splice_parts(buf: Seq<u8>, start: int, end: int, with: Seq<u8>)
    requires
        0 <= start <= end <= buf.len(),
    ensures
        spec_splice(buf, start, end, with).len() == buf.len() - (end - start) + with.len(),
        spec_splice(buf, start, end, with).subrange(0, start) == buf.subrange(0, start),
        spec_splice(buf, start, end, with).subrange(start, start + with.len()) == with,
        spec_splice(buf, start, end, with).subrange(
            start + with.len(),
            spec_splice(buf, start, end, with).len() as int,
        ) == buf.subrange(end, buf.len() as int),
{
    let out = spec_splice(buf, start, end, with);
    assert(out.subrange(0, start) =~= buf.subrange(0, start));
    assert(out.subrange(start, start + with.len()) =~= with);
    assert(out.subrange(start + with.len(), out.len() as int) =~= buf.subrange(
        end,
        buf.len() as int,
    ));
}

} // verus!
