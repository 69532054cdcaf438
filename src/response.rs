use vstd::prelude::*;

verus! {

/// Seconds after which a cached widget is stale and is refreshed in the
/// background while still being served.
pub const STALE_AFTER_SECS: u64 = 60;

/// Total weight, in bytes, that the response cache holds.
pub const MAX_CACHE_WEIGHT: u64 = 64 * 1024 * 1024;

/// A rendered widget as kept in the response cache.
#[derive(Clone, Debug)]
pub struct ResponseCache {
    /// When the widget was rendered, in seconds on a monotonic clock.
    pub timestamp: u64,
    /// The encoded image.
    pub response: Vec<u8>,
}

/// Seconds from `then` to `now`, zero when `now` is earlier.
pub open spec fn age(then: u64, now: u64) -> nat {
    if now >= then { (now - then) as nat } else { 0 }
}

/// Whether an entry rendered at `then` is stale at `now`.
pub open spec fn stale(then: u64, now: u64) -> bool {
    age(then, now) > STALE_AFTER_SECS
}

/// The weight of a payload of `len` bytes, capped at the largest `u32`.
pub open spec fn weight_of(len: nat) -> nat {
    if len <= u32::MAX { len } else { u32::MAX as nat }
}

impl ResponseCache {
    /// An entry for a widget rendered at `now`.
    pub fn new(response: Vec<u8>, now: u64) -> (r: ResponseCache)
        ensures
            r.timestamp == now,
            r.response@ == response@,
    {
        ResponseCache { timestamp: now, response }
    }

    /// Whether the entry is past its freshness window at `now`.
    pub fn is_stale(&self, now: u64) -> (r: bool)
        ensures
            r == stale(self.timestamp, now),
    {
        now >= self.timestamp && now - self.timestamp > STALE_AFTER_SECS
    }

    /// The entry's weight against the cache's capacity: its byte length.
    pub fn weight(&self) -> (r: u32)
        ensures
            r as nat == weight_of(self.response@.len()),
    {
        let n = self.response.len();
        if n <= u32::MAX as usize {
            n as u32
        } else {
            u32::MAX
        }
    }
}

/// What a request does after looking up its key in the response cache.
#[derive(Clone, Copy, Debug, PartialEq, Eq, Structural)]
pub enum CacheDecision {
    /// Serve the cached bytes; nothing else.
    Serve,
    /// Serve the cached bytes now, and refresh the entry once in the
    /// background.
    ServeAndRefresh,
    /// Nothing is cached: render the widget, store it, and serve it.
    Render,
}

/// The decision for a lookup that found an entry rendered at `found`, or none.
pub open spec fn decision_of(found: Option<u64>, now: u64) -> CacheDecision {
    match found {
        Some(then) => if stale(then, now) {
            CacheDecision::ServeAndRefresh
        } else {
            CacheDecision::Serve
        },
        None => CacheDecision::Render,
    }
}

/// The timestamp of an optional entry.
pub open spec fn found_at(hit: Option<&ResponseCache>) -> Option<u64> {
    match hit {
        Some(e) => Some(e.timestamp),
        None => None,
    }
}

/// Decides, from what the cache held for a request's key, whether the
/// request is served from the cache, served and refreshed, or rendered.
/// Concurrent stale hits may each refresh: a refresh is idempotent and the
/// last write wins.
pub fn decide(hit: Option<&ResponseCache>, now: u64) -> (r: CacheDecision)
    ensures
        r == decision_of(found_at(hit), now),
{
    match hit {
        Some(e) => if e.is_stale(now) {
            CacheDecision::ServeAndRefresh
        } else {
            CacheDecision::Serve
        },
        None => CacheDecision::Render,
    }
}

/// A widget stored at `t` and looked up again within the freshness window is
/// served as stored: the repeated request renders nothing and fetches nothing
/// upstream, and its bytes are those of the first.
pub proof fn lemma_fresh_entry_served(e: ResponseCache, bytes: Seq<u8>, t: u64, now: u64)
    requires
        e.timestamp == t,
        e.response@ == bytes,
        t <= now,
        now - t <= STALE_AFTER_SECS,
    ensures
        decision_of(Some(e.timestamp), now) == CacheDecision::Serve,
        e.response@ == bytes,
{
}

/// A stale entry is served as it stands and asks for exactly one refresh;
/// once the refresh has stored its widget at `t2`, a lookup of that entry
/// within the freshness window serves the refreshed bytes and refreshes
/// nothing more.
pub proof fn lemma_stale_entry_refreshed(
    old_entry: ResponseCache,
    new_entry: ResponseCache,
    now: u64,
    t2: u64,
    later: u64,
)
    requires
        stale(old_entry.timestamp, now),
        new_entry.timestamp == t2,
        t2 <= later,
        later - t2 <= STALE_AFTER_SECS,
    ensures
        decision_of(Some(old_entry.timestamp), now) == CacheDecision::ServeAndRefresh,
        decision_of(Some(new_entry.timestamp), later) == CacheDecision::Serve,
{
}

} // verus!
