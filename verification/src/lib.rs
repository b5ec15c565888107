//! Client core for a puzzle-distribution website: fetch puzzle inputs and
//! worked examples per day while respecting the site's automation etiquette.
//!
//! The crate holds the request-throttling gate, the two-tier (memory plus
//! durable) cache coordinator and the example-extraction scan. The raw HTTP
//! transport, the filesystem and the process clock stay outside: the
//! surrounding program performs them and hands the results in as plain
//! values. A lookup here never performs network work; when it misses both
//! tiers the surrounding program passes the throttle gate, fetches the
//! verified request URL, and records the fetched text back into the
//! coordinator. At orderly shutdown — the only point durable writes occur —
//! both memory tiers and the throttle timestamp are flushed to the durable
//! store.

pub mod cache;
pub mod example_parse;
pub mod text;
pub mod throttle;

use crate::cache::{ExampleKey, ExampleTier, InputKey, InputTier, PersistentCacheProvider};
use crate::example_parse::{spec_parse_example, view_opt_example, view_opt_string, Example};
use crate::text::dec_int;
use crate::throttle::{throttle_decision, ThrottleGate, ThrottleStep};
use vstd::prelude::*;
use vstd::string::*;

verus! {

/// Minimum enforced spacing between outbound requests, in milliseconds.
pub const MIN_TIME_BETWEEN_REQUESTS_MS: u64 = 180000;

/// What a tiered lookup returns: the memory tier's text if the key is
/// there, else the durable tier's, else nothing.
pub open spec fn tier_lookup_result<K>(
    mem: Map<K, Seq<char>>,
    durable: Map<K, Seq<char>>,
    key: K,
) -> Option<Seq<char>> {
    if mem.contains_key(key) {
        Some(mem[key])
    } else if durable.contains_key(key) {
        Some(durable[key])
    } else {
        None
    }
}

/// The memory tier after a tiered lookup: unchanged but for a durable hit,
/// which is promoted into it.
pub open spec fn tier_lookup_mem_after<K>(
    mem: Map<K, Seq<char>>,
    durable: Map<K, Seq<char>>,
    key: K,
) -> Map<K, Seq<char>> {
    if mem.contains_key(key) {
        mem
    } else if durable.contains_key(key) {
        mem.insert(key, durable[key])
    } else {
        mem
    }
}

/// The URL of one puzzle's input text.
pub open spec fn spec_input_url(year: i32, day: i32) -> Seq<char> {
    "https://adventofcode.com/"@ + dec_int(year as int) + "/day/"@ + dec_int(day as int)
        + "/input"@
}

/// The URL of one puzzle's page.
pub open spec fn spec_puzzle_url(year: i32, day: i32) -> Seq<char> {
    "https://adventofcode.com/"@ + dec_int(year as int) + "/day/"@ + dec_int(day as int)
}

/// The URL of the input text for the given puzzle.
pub fn input_url(year: i32, day: i32) -> (r: String)
    ensures
        r@ == spec_input_url(year, day),
{
    let mut r = puzzle_url(year, day);
    r.append("/input");
    r
}

/// The URL of the page for the given puzzle.
pub fn puzzle_url(year: i32, day: i32) -> (r: String)
    ensures
        r@ == spec_puzzle_url(year, day),
{
    let mut r = String::new();
    r.append("https://adventofcode.com/");
    r.append(crate::text::fmt_i32(year).as_str());
    r.append("/day/");
    r.append(crate::text::fmt_i32(day).as_str());
    r
}

/// The coordinator: session token, throttle gate, the two in-memory cache
/// tiers (input texts and raw example page HTML) and the durable store.
/// One instance owns all of this state exclusively; it is not designed for
/// concurrent use.
pub struct AocClient<C: PersistentCacheProvider> {
    pub session: String,
    pub throttle: ThrottleGate,
    pub mem_cache: InputTier,
    pub example_cache: ExampleTier,
    pub persistent_cache: C,
}

impl<C: PersistentCacheProvider> AocClient<C> {
    /// A coordinator over the given session token and durable store. The
    /// throttle timestamp is read once from the store, defaulting to the
    /// epoch when absent, so the request spacing survives restarts; both
    /// memory tiers start empty.
    pub fn new_with_custom_cache(session: String, cache_provider: C) -> (r: AocClient<C>)
        ensures
            r.session@ == session@,
            r.throttle.min_interval_ms == MIN_TIME_BETWEEN_REQUESTS_MS,
            r.throttle.last_request_ms == (match cache_provider.timestamp() {
                Some(t) => t,
                None => 0u64,
            }),
            r.mem_cache@ == Map::<InputKey, Seq<char>>::empty(),
            r.example_cache@ == Map::<ExampleKey, Seq<char>>::empty(),
            r.persistent_cache == cache_provider,
    {
        let last = match cache_provider.load_throttle_timestamp() {
            Some(t) => t,
            None => 0,
        };
        AocClient {
            session,
            throttle: ThrottleGate::new(last, MIN_TIME_BETWEEN_REQUESTS_MS),
            mem_cache: InputTier::new(),
            example_cache: ExampleTier::new(),
            persistent_cache: cache_provider,
        }
    }

    /// The cookie header authenticating requests to the site.
    pub fn cookie_header(&self) -> (r: String)
        ensures
            r@ == "session="@ + self.session@,
    {
        let mut r = String::new();
        r.append("session=");
        r.append(self.session.as_str());
        r
    }

    /// One throttle-gate acquisition attempt at the given clock reading,
    /// for use immediately before any network fetch: the caller waits the
    /// returned duration and attempts again until the step says the request may
    /// proceed. Touches nothing but the throttle.
    pub fn throttle_step(&mut self, now_ms: u64) -> (r: ThrottleStep)
        ensures
            r == throttle_decision(
                old(self).throttle.last_request_ms,
                old(self).throttle.min_interval_ms,
                now_ms,
            ),
            final(self).throttle.min_interval_ms == old(self).throttle.min_interval_ms,
            final(self).throttle.last_request_ms == if r is Proceed {
                now_ms
            } else {
                old(self).throttle.last_request_ms
            },
            final(self).session == old(self).session,
            final(self).mem_cache == old(self).mem_cache,
            final(self).example_cache == old(self).example_cache,
            final(self).persistent_cache == old(self).persistent_cache,
    {
        self.throttle.acquire_step(now_ms)
    }

    /// Tiered lookup of one puzzle's input text: the memory tier first, then
    /// the durable tier, promoting a durable hit into memory. Never performs
    /// network work and never touches the throttle gate; a `None` tells the
    /// caller to fall through to a fetch.
    pub fn get_input_cached(&mut self, year: i32, day: i32) -> (r: Option<String>)
        ensures
            view_opt_string(r) == tier_lookup_result(
                old(self).mem_cache@,
                old(self).persistent_cache.inputs(),
                InputKey { year, day },
            ),
            final(self).mem_cache@ == tier_lookup_mem_after(
                old(self).mem_cache@,
                old(self).persistent_cache.inputs(),
                InputKey { year, day },
            ),
            final(self).session == old(self).session,
            final(self).throttle == old(self).throttle,
            final(self).example_cache == old(self).example_cache,
            final(self).persistent_cache == old(self).persistent_cache,
    {
        let key = InputKey { year, day };
        match self.mem_cache.get(key) {
            Some(text) => Some(text),
            None => match self.persistent_cache.load(key) {
                Some(text) => {
                    self.mem_cache.insert(key, text.clone());
                    Some(text)
                },
                None => None,
            },
        }
    }

    /// Memory-tier-only lookup of one puzzle's input text, for callers that
    /// distrust the durable tier. Changes nothing.
    pub fn get_input_memory(&self, year: i32, day: i32) -> (r: Option<String>)
        ensures
            r is Some <==> self.mem_cache@.contains_key(InputKey { year, day }),
            r is Some ==> r->0@ == self.mem_cache@[InputKey { year, day }],
    {
        self.mem_cache.get(InputKey { year, day })
    }

    /// Record one successfully fetched input text into the memory tier.
    /// The durable tier is deliberately untouched: it is written only at
    /// shutdown.
    pub fn record_input_fetch(&mut self, year: i32, day: i32, text: String)
        ensures
            final(self).mem_cache@ == old(self).mem_cache@.insert(InputKey { year, day }, text@),
            final(self).session == old(self).session,
            final(self).throttle == old(self).throttle,
            final(self).example_cache == old(self).example_cache,
            final(self).persistent_cache == old(self).persistent_cache,
    {
        self.mem_cache.insert(InputKey { year, day }, text);
    }

    /// Tiered lookup of one puzzle's example: the raw page HTML is looked up
    /// in the memory tier, then the durable tier (promoting a durable hit),
    /// and a hit is re-parsed by the extraction scan — the parsed example is
    /// never itself cached. The outer `None` is a full miss telling the
    /// caller to fall through to a fetch; the inner option is the
    /// extraction's own outcome.
    pub fn get_example_cached(&mut self, year: i32, day: i32, part: i32) -> (r: Option<
        Option<Example>,
    >)
        ensures
            ({
                let looked = tier_lookup_result(
                    old(self).example_cache@,
                    old(self).persistent_cache.examples(),
                    ExampleKey { year, day, part },
                );
                &&& r is Some <==> looked is Some
                &&& r is Some ==> view_opt_example(r->0) == spec_parse_example(looked->0)
            }),
            final(self).example_cache@ == tier_lookup_mem_after(
                old(self).example_cache@,
                old(self).persistent_cache.examples(),
                ExampleKey { year, day, part },
            ),
            final(self).session == old(self).session,
            final(self).throttle == old(self).throttle,
            final(self).mem_cache == old(self).mem_cache,
            final(self).persistent_cache == old(self).persistent_cache,
    {
        let key = ExampleKey { year, day, part };
        match self.example_cache.get(key) {
            Some(html) => Some(Example::parse_example(html)),
            None => match self.persistent_cache.load_example(key) {
                Some(html) => {
                    self.example_cache.insert(key, html.clone());
                    Some(Example::parse_example(html))
                },
                None => None,
            },
        }
    }

    /// Memory-tier-only lookup of one puzzle's example, re-parsing a hit,
    /// for callers that distrust the durable tier. Changes nothing.
    pub fn get_example_memory(&self, year: i32, day: i32, part: i32) -> (r: Option<
        Option<Example>,
    >)
        ensures
            r is Some <==> self.example_cache@.contains_key(ExampleKey { year, day, part }),
            r is Some ==> view_opt_example(r->0) == spec_parse_example(
                self.example_cache@[ExampleKey { year, day, part }],
            ),
    {
        match self.example_cache.get(ExampleKey { year, day, part }) {
            Some(html) => Some(Example::parse_example(html)),
            None => None,
        }
    }

    /// Record one successfully fetched puzzle page into the memory tier and
    /// run the extraction scan over it. The durable tier is deliberately
    /// untouched: it is written only at shutdown.
    pub fn record_example_fetch(&mut self, year: i32, day: i32, part: i32, html: String) -> (r:
        Option<Example>)
        ensures
            view_opt_example(r) == spec_parse_example(html@),
            final(self).example_cache@ == old(self).example_cache@.insert(
                ExampleKey { year, day, part },
                html@,
            ),
            final(self).session == old(self).session,
            final(self).throttle == old(self).throttle,
            final(self).mem_cache == old(self).mem_cache,
            final(self).persistent_cache == old(self).persistent_cache,
    {
        self.example_cache.insert(ExampleKey { year, day, part }, html.clone());
        Example::parse_example(html)
    }

    /// Orderly shutdown: flush both memory tiers and the current throttle
    /// timestamp to the durable store and hand the store back. This is the
    /// only point at which durable writes occur; skipping it loses the
    /// session's unflushed entries.
    pub fn shutdown(self) -> (r: C)
        ensures
            r.inputs() == self.persistent_cache.inputs().union_prefer_right(self.mem_cache@),
            r.examples() == self.persistent_cache.examples().union_prefer_right(
                self.example_cache@,
            ),
            r.timestamp() == Some(self.throttle.last_request_ms),
    {
        let AocClient { session: _, throttle, mem_cache, example_cache, mut persistent_cache } =
            self;
        persistent_cache.save_all(
            mem_cache.entries(),
            example_cache.entries(),
            throttle.last_request_ms,
        );
        persistent_cache
    }
}

/// Law: within one session, once a successful fetch has been recorded for a
/// key, a repeated lookup for that key is a memory-tier hit — it returns
/// the recorded text and leaves the memory tier as it was, so no further
/// network fetch is signalled.
pub proof fn lemma_repeat_lookup_after_fetch<K>(
    mem: Map<K, Seq<char>>,
    durable: Map<K, Seq<char>>,
    key: K,
    text: Seq<char>,
)
    ensures
        tier_lookup_result(mem.insert(key, text), durable, key) == Some(text),
        tier_lookup_mem_after(mem.insert(key, text), durable, key) == mem.insert(key, text),
{
}

/// Law: a value the durable store holds before the session's first lookup
/// for its key is returned by that lookup without any fetch, and is
/// promoted into the memory tier — so the next lookup is a memory hit.
pub proof fn lemma_durable_hit_promoted<K>(
    mem: Map<K, Seq<char>>,
    durable: Map<K, Seq<char>>,
    key: K,
)
    requires
        !mem.contains_key(key),
        durable.contains_key(key),
    ensures
        tier_lookup_result(mem, durable, key) == Some(durable[key]),
        tier_lookup_mem_after(mem, durable, key) == mem.insert(key, durable[key]),
        tier_lookup_result(tier_lookup_mem_after(mem, durable, key), durable, key) == Some(
            durable[key],
        ),
{
}

} // verus!
