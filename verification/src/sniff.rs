//! The buffer that holds a connection's first bytes until it is known what
//! they are.
//!
//! Bytes are added in the order in which they were read, and handed on to
//! the target once: as they are, or with the `User-Agent` header rewritten.
//! A buffer that has handed its bytes on takes no more.

use vstd::prelude::*;
use crate::http::{
    find_user_agent, is_http_request, rewrite_user_agent, spec_is_http_request, spec_rewrite,
    spec_skipped, spec_user_agent_span, RewriteSkipped,
};
use crate::search::{find_bytes, occurs};
use crate::session::Event;

verus! {

/// The first read from the client takes at most this many bytes: enough to
/// hold the longest request method and the space behind it.
pub const INITIAL_READ_LEN: usize = 8;

/// The request's head is assembled in a buffer of at most this many bytes.
pub const SNIFF_CAPACITY: usize = 4096;

/// The bytes that end the head of a request: an empty line.
pub open spec fn head_end() -> Seq<u8> {
    seq![13u8, 10u8, 13u8, 10u8]
}

/// The event that the client's first bytes stand for.
pub open spec fn spec_classify_initial(bytes: Seq<u8>) -> Event {
    if bytes.len() == 0 {
        Event::ClientClosed
    } else if spec_is_http_request(bytes) {
        Event::HttpDetected
    } else {
        Event::NotHttp
    }
}

/// Whether the head of a request is assembled as far as it will be, after a
/// read that added `last_read` bytes: the client has closed, the buffer is
/// full, the head's end has arrived, or the `User-Agent` value has arrived
/// with the carriage return behind it.
pub open spec fn spec_head_assembled(buf: Seq<u8>, last_read: usize) -> bool {
    ||| last_read == 0
    ||| buf.len() >= SNIFF_CAPACITY
    ||| occurs(buf, head_end())
    ||| (spec_user_agent_span(buf) is Some && spec_user_agent_span(buf).unwrap().1 < buf.len())
}

/// Says what the client's first bytes are: nothing, the beginning of an HTTP
/// request, or something else.
pub fn classify_initial(bytes: &[u8]) -> (event: Event)
    ensures
        event == spec_classify_initial(bytes@),
{
    if bytes.len() == 0 {
        Event::ClientClosed
    } else if is_http_request(bytes) {
        Event::HttpDetected
    } else {
        Event::NotHttp
    }
}

/// Says whether to read more of a request before it is rewritten and
/// forwarded. `buf` holds what has been read, `last_read` is the number of
/// bytes that the last read added.
pub fn assembly_progress(buf: &[u8], last_read: usize) -> (event: Event)
    ensures
        event == if spec_head_assembled(buf@, last_read) {
            Event::HeadAssembled
        } else {
            Event::NeedMore
        },
{
    if last_read == 0 || buf.len() >= SNIFF_CAPACITY {
        return Event::HeadAssembled;
    }
    let end: [u8; 4] = [13u8, 10u8, 13u8, 10u8];
    assert(end@ =~= head_end());
    if find_bytes(buf, end.as_slice()).is_some() {
        return Event::HeadAssembled;
    }
    match find_user_agent(buf) {
        Some(span) => if span.end < buf.len() {
            Event::HeadAssembled
        } else {
            Event::NeedMore
        },
        None => Event::NeedMore,
    }
}

/// The first bytes of a connection, and whether they have been handed on.
#[derive(Debug)]
pub struct SniffBuffer {
    bytes: Vec<u8>,
    forwarded: bool,
}

impl View for SniffBuffer {
    type V = Seq<u8>;

    /// The bytes held, in the order in which they were read.
    closed spec fn view(&self) -> Seq<u8> {
        self.bytes@
    }
}

impl SniffBuffer {
    #[verifier::type_invariant]
    spec fn inv(self) -> bool {
        self.bytes@.len() <= SNIFF_CAPACITY && (self.forwarded ==> self.bytes@.len() == 0)
    }

    /// The bytes have been handed on.
    pub closed spec fn spec_forwarded(&self) -> bool {
        self.forwarded
    }

    /// The number of bytes that the buffer still takes: none once it has
    /// handed its bytes on.
    pub open spec fn spec_room(&self) -> int {
        if self.spec_forwarded() {
            0
        } else {
            SNIFF_CAPACITY - self@.len()
        }
    }

    /// An empty buffer.
    pub fn new() -> (buffer: SniffBuffer)
        ensures
            buffer@ == Seq::<u8>::empty(),
            !buffer.spec_forwarded(),
    {
        SniffBuffer { bytes: Vec::new(), forwarded: false }
    }

    /// Whether the bytes have been handed on.
    pub fn is_forwarded(&self) -> (r: bool)
        ensures
            r == self.spec_forwarded(),
    {
        self.forwarded
    }

    /// The number of bytes held.
    pub fn len(&self) -> (n: usize)
        ensures
            n == self@.len(),
            n <= SNIFF_CAPACITY,
    {
        proof {
            use_type_invariant(self);
        }
        self.bytes.len()
    }

    /// The number of bytes that the buffer still takes.
    pub fn room(&self) -> (n: usize)
        ensures
            n == self.spec_room(),
    {
        proof {
            use_type_invariant(self);
        }
        if self.forwarded {
            0
        } else {
            SNIFF_CAPACITY - self.bytes.len()
        }
    }

    /// The bytes held.
    pub fn as_slice(&self) -> (bytes: &[u8])
        ensures
            bytes@ == self@,
    {
        self.bytes.as_slice()
    }

    /// Adds the bytes of a read behind those held, where there is room for
    /// all of them, and says whether it did.
    pub fn extend(&mut self, chunk: &[u8]) -> (taken: bool)
        ensures
            taken == (chunk@.len() <= old(self).spec_room()),
            final(self)@ == if taken {
                old(self)@ + chunk@
            } else {
                old(self)@
            },
            final(self).spec_forwarded() == old(self).spec_forwarded(),
    {
        proof {
            use_type_invariant(&*self);
        }
        if chunk.len() <= self.room() {
            let mut bytes: Vec<u8> = Vec::new();
            core::mem::swap(&mut self.bytes, &mut bytes);
            let ghost before = bytes@;
            bytes.extend_from_slice(chunk);
            assert(bytes@ =~= before + chunk@);
            core::mem::swap(&mut self.bytes, &mut bytes);
            true
        } else {
            false
        }
    }

    /// Says what the first bytes are: nothing, the beginning of an HTTP
    /// request, or something else.
    pub fn classify(&self) -> (event: Event)
        ensures
            event == spec_classify_initial(self@),
    {
        classify_initial(self.bytes.as_slice())
    }

    /// Says whether to read more of the request, after a read that added
    /// `last_read` bytes.
    pub fn progress(&self, last_read: usize) -> (event: Event)
        ensures
            event == if spec_head_assembled(self@, last_read) {
                Event::HeadAssembled
            } else {
                Event::NeedMore
            },
    {
        assembly_progress(self.bytes.as_slice(), last_read)
    }

    /// Hands the bytes on as they are. `None` where they were handed on
    /// before.
    pub fn take(&mut self) -> (bytes: Option<Vec<u8>>)
        ensures
            match bytes {
                Some(taken) => !old(self).spec_forwarded() && taken@ == old(self)@,
                None => old(self).spec_forwarded(),
            },
            final(self).spec_forwarded(),
            final(self)@ == Seq::<u8>::empty(),
    {
        proof {
            use_type_invariant(&*self);
        }
        if self.forwarded {
            None
        } else {
            let mut taken: Vec<u8> = Vec::new();
            core::mem::swap(&mut self.bytes, &mut taken);
            self.forwarded = true;
            Some(taken)
        }
    }

    /// Hands the bytes on with the value of the `User-Agent` header replaced
    /// by `user_agent`, or as they are where the header is not to be
    /// touched; the reason for leaving them comes with them, for the log.
    /// `None` where the bytes were handed on before.
    pub fn take_rewritten(&mut self, user_agent: &[u8]) -> (handed: Option<
        (Vec<u8>, Option<RewriteSkipped>),
    >)
        ensures
            match handed {
                Some((bytes, skipped)) => {
                    &&& !old(self).spec_forwarded()
                    &&& bytes@ == spec_rewrite(old(self)@, user_agent@)
                    &&& skipped == spec_skipped(old(self)@, user_agent@)
                },
                None => old(self).spec_forwarded(),
            },
            final(self).spec_forwarded(),
            final(self)@ == Seq::<u8>::empty(),
    {
        let outcome = rewrite_user_agent(self.bytes.as_slice(), user_agent);
        let held = self.take();
        match held {
            Some(original) => match outcome {
                Ok(rewritten) => Some((rewritten, None)),
                Err(reason) => Some((original, Some(reason))),
            },
            None => None,
        }
    }
}

} // verus!
