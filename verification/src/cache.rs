//! The destinations that are known not to speak HTTP.
//!
//! A destination is remembered once the first bytes sent to it turned out to
//! be no HTTP request, and forgotten after a time to live. While it is
//! remembered, connections to it are relayed without a look at their bytes.
//! This is a shortcut, not a proof: the destination may have begun to speak
//! HTTP in the meantime.

use vstd::prelude::*;
use vstd::string::StringExecFns;
use crate::session::{spec_step, Action, Event, Phase};

verus! {

/// The cache of the `moka` crate, in its blocking form.
#[verifier::external_type_specification]
#[verifier::external_body]
#[verifier::reject_recursive_types(K)]
#[verifier::reject_recursive_types(V)]
#[verifier::reject_recursive_types(S)]
pub struct ExCache<K, V, S>(moka::sync::Cache<K, V, S>);

/// The largest time to live in seconds that a cache can be built with: a
/// thousand years of 365 days.
pub const MAX_TIME_TO_LIVE_SECS: u64 = 31_536_000_000;

/// The number of destinations that are remembered at most, by default.
pub const DEFAULT_CAPACITY: u64 = 300;

/// The time in seconds for which a destination is remembered, by default.
pub const DEFAULT_TIME_TO_LIVE_SECS: u64 = 600;

/// The keys that have been inserted into a cache since it was built. The
/// cache holds some of them: it drops an entry when its time to live is
/// over, and when it holds more entries than it was built for.
pub uninterp spec fn inserted_keys(entries: moka::sync::Cache<String, ()>) -> Set<Seq<char>>;

/// The limits that a cache was built with, as `Cache::policy` reports them:
/// the largest number of entries, and the time to live in seconds.
pub uninterp spec fn built_limits(entries: moka::sync::Cache<String, ()>) -> (u64, u64);

/// The destinations known not to speak HTTP, by their keys.
pub struct DestinationCache {
    entries: moka::sync::Cache<String, ()>,
}

/// Builds a cache with `moka::sync::Cache::builder`, bounded by
/// `max_capacity` entries and with the time to live `time_to_live_secs`.
/// `build` panics for a time to live of more than a thousand years. The
/// cache that it returns has these two limits, and nothing has been inserted
/// into it.
#[verifier::external_body]
fn build_cache(max_capacity: u64, time_to_live_secs: u64) -> (entries: moka::sync::Cache<String, ()>)
    requires
        time_to_live_secs <= MAX_TIME_TO_LIVE_SECS,
    ensures
        inserted_keys(entries) == Set::<Seq<char>>::empty(),
        built_limits(entries) == (max_capacity, time_to_live_secs),
{
    moka::sync::Cache::builder()
        .max_capacity(max_capacity)
        .time_to_live(std::time::Duration::from_secs(time_to_live_secs))
        .build()
}

/// Calls `moka::sync::Cache::get` and says whether it found an entry. It
/// finds none for a key that was never inserted. Whether it finds one for a
/// key that was depends on the time that has passed and on what the cache
/// has dropped.
#[verifier::external_body]
fn cache_holds(entries: &moka::sync::Cache<String, ()>, key: &str) -> (found: bool)
    ensures
        found ==> inserted_keys(*entries).contains(key@),
{
    entries.get(key).is_some()
}

/// Calls `moka::sync::Cache::insert` with the key and the unit value. The
/// limits of a cache cannot be changed once it is built.
#[verifier::external_body]
fn cache_insert(entries: &mut moka::sync::Cache<String, ()>, key: &str)
    ensures
        inserted_keys(*final(entries)) == inserted_keys(*old(entries)).insert(key@),
        built_limits(*final(entries)) == built_limits(*old(entries)),
{
    entries.insert(key.to_string(), ())
}

impl DestinationCache {
    /// The destinations that have been remembered since the cache was made.
    pub closed spec fn remembered(&self) -> Set<Seq<char>> {
        inserted_keys(self.entries)
    }

    /// The limits of the cache: the largest number of destinations that it
    /// remembers at one time, and the time in seconds for which it remembers
    /// each.
    pub closed spec fn spec_limits(&self) -> (u64, u64) {
        built_limits(self.entries)
    }

    /// A cache that remembers at most `max_capacity` destinations, each for
    /// `time_to_live_secs` seconds. A time to live above
    /// `MAX_TIME_TO_LIVE_SECS` is taken as `MAX_TIME_TO_LIVE_SECS`.
    pub fn new(max_capacity: u64, time_to_live_secs: u64) -> (cache: DestinationCache)
        ensures
            cache.remembered() == Set::<Seq<char>>::empty(),
            cache.spec_limits() == (
                max_capacity,
                if time_to_live_secs > MAX_TIME_TO_LIVE_SECS {
                    MAX_TIME_TO_LIVE_SECS
                } else {
                    time_to_live_secs
                },
            ),
    {
        let secs = if time_to_live_secs > MAX_TIME_TO_LIVE_SECS {
            MAX_TIME_TO_LIVE_SECS
        } else {
            time_to_live_secs
        };
        DestinationCache { entries: build_cache(max_capacity, secs) }
    }

    /// Looks a destination up, and reports a hit or a miss. A hit is
    /// reported only for a destination that was remembered; a miss may be
    /// reported for one that was, once its time is over or the cache has
    /// dropped it.
    pub fn lookup(&self, key: &str) -> (event: Event)
        ensures
            event == Event::CacheHit || event == Event::CacheMiss,
            event == Event::CacheHit ==> self.remembered().contains(key@),
    {
        lookup_event(cache_holds(&self.entries, key))
    }

    /// Remembers a destination as one that does not speak HTTP.
    pub fn remember(&mut self, key: &str)
        ensures
            final(self).remembered() == old(self).remembered().insert(key@),
            final(self).spec_limits() == old(self).spec_limits(),
    {
        cache_insert(&mut self.entries, key)
    }
}

/// The event that stands for the answer of a lookup.
pub open spec fn spec_lookup_event(found: bool) -> Event {
    if found {
        Event::CacheHit
    } else {
        Event::CacheMiss
    }
}

/// A connection whose destination is found is relayed at once, without a
/// look at its bytes. One whose destination is not found has its first
/// bytes read, like a connection to a destination never seen.
pub proof fn lemma_lookup_decides_sniffing(found: bool)
    ensures
        spec_step(Phase::CheckingCache, spec_lookup_event(found)) == if found {
            (Phase::Relaying, Action::Relay)
        } else {
            (Phase::Sniffing, Action::ReadInitial)
        },
{
}

/// The event that stands for the answer of a lookup.
pub fn lookup_event(found: bool) -> (event: Event)
    ensures
        event == spec_lookup_event(found),
{
    if found {
        Event::CacheHit
    } else {
        Event::CacheMiss
    }
}

/// The character of a decimal digit.
pub open spec fn spec_digit(d: nat) -> char {
    "0123456789"@[d as int]
}

/// A number in decimal digits, without leading zeros.
pub open spec fn spec_decimal(n: nat) -> Seq<char>
    decreases n,
{
    if n < 10 {
        seq![spec_digit(n)]
    } else {
        spec_decimal(n / 10).push(spec_digit(n % 10))
    }
}

/// The key of a destination: the host, a colon, and the port in decimal
/// digits.
pub open spec fn spec_destination_key(host: Seq<char>, port: u16) -> Seq<char> {
    host + seq![':'] + spec_decimal(port as nat)
}

fn digit_text(d: u16) -> (text: &'static str)
    requires
        d < 10,
    ensures
        text@ == seq![spec_digit(d as nat)],
{
    proof {
        reveal_strlit("0123456789");
        reveal_strlit("0");
        reveal_strlit("1");
        reveal_strlit("2");
        reveal_strlit("3");
        reveal_strlit("4");
        reveal_strlit("5");
        reveal_strlit("6");
        reveal_strlit("7");
        reveal_strlit("8");
        reveal_strlit("9");
    }
    let text = match d {
        0 => "0",
        1 => "1",
        2 => "2",
        3 => "3",
        4 => "4",
        5 => "5",
        6 => "6",
        7 => "7",
        8 => "8",
        _ => "9",
    };
    assert(text@ =~= seq![spec_digit(d as nat)]);
    text
}

fn append_decimal(text: &mut String, n: u16)
    ensures
        final(text)@ == old(text)@ + spec_decimal(n as nat),
    decreases n,
{
    if n < 10 {
        text.append(digit_text(n));
    } else {
        append_decimal(text, n / 10);
        text.append(digit_text(n % 10));
        assert(text@ =~= old(text)@ + spec_decimal(n as nat));
    }
}

/// The key under which a destination is remembered: `host:port`.
pub fn destination_key(host: &str, port: u16) -> (key: String)
    ensures
        key@ == spec_destination_key(host@, port),
{
    proof {
        reveal_strlit(":");
    }
    let mut key = String::from_str(host);
    key.append(":");
    assert(key@ =~= host@ + seq![':']);
    append_decimal(&mut key, port);
    key
}

} // verus!
