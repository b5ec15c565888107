//! Cache keys, the in-memory cache tiers, and the durable-store capability.
//!
//! The in-memory tiers are append-only association lists whose mathematical
//! image is a map from key to text; a later entry for a key shadows an
//! earlier one, so an insert overwrites. The durable store is a capability
//! trait: its contract describes key-to-text storage plus one timestamp
//! slot, a verified in-memory implementation backs the tests, and a
//! file-backed implementation lives with the surrounding program, which
//! builds its file paths from the verified path functions here.

use crate::text::{dec_int, fmt_i32};
use vstd::prelude::*;
use vstd::string::*;

verus! {

/// Identifies one puzzle's input text.
#[derive(Clone, Copy, PartialEq, Eq, Structural, Hash, Debug)]
pub struct InputKey {
    pub year: i32,
    pub day: i32,
}

/// Identifies one cached puzzle page. The `part` component only separates
/// the page as captured before and after part two is unlocked; it is not
/// part of the parsed content's identity.
#[derive(Clone, Copy, PartialEq, Eq, Structural, Hash, Debug)]
pub struct ExampleKey {
    pub year: i32,
    pub day: i32,
    pub part: i32,
}

/// The map image of a sequence of input-key entries; a later entry for a
/// key shadows an earlier one.
pub open spec fn input_map_of(s: Seq<(InputKey, String)>) -> Map<InputKey, Seq<char>>
    decreases s.len(),
{
    if s.len() == 0 {
        Map::empty()
    } else {
        input_map_of(s.drop_last()).insert(s.last().0, s.last().1@)
    }
}

/// The map image of a sequence of example-key entries; a later entry for a
/// key shadows an earlier one.
pub open spec fn example_map_of(s: Seq<(ExampleKey, String)>) -> Map<ExampleKey, Seq<char>>
    decreases s.len(),
{
    if s.len() == 0 {
        Map::empty()
    } else {
        example_map_of(s.drop_last()).insert(s.last().0, s.last().1@)
    }
}

/// The fast in-memory tier over input keys. Never evicts; bounded by the
/// process lifetime only.
pub struct InputTier {
    entries: Vec<(InputKey, String)>,
}

impl View for InputTier {
    type V = Map<InputKey, Seq<char>>;

    closed spec fn view(&self) -> Map<InputKey, Seq<char>> {
        input_map_of(self.entries@)
    }
}

impl InputTier {
    /// An empty tier.
    pub fn new() -> (r: InputTier)
        ensures
            r@ == Map::<InputKey, Seq<char>>::empty(),
    {
        InputTier { entries: Vec::new() }
    }

    /// Insert or overwrite the text stored under a key.
    pub fn insert(&mut self, key: InputKey, text: String)
        ensures
            final(self)@ == old(self)@.insert(key, text@),
    {
        self.entries.push((key, text));
        proof {
            assert(self.entries@.drop_last() =~= old(self).entries@);
        }
    }

    /// Look a key up.
    pub fn get(&self, key: InputKey) -> (r: Option<String>)
        ensures
            r is Some <==> self@.contains_key(key),
            r is Some ==> r->0@ == self@[key],
    {
        let mut i = self.entries.len();
        proof {
            assert(self.entries@.take(i as int) =~= self.entries@);
        }
        while i > 0
            invariant
                i <= self.entries@.len(),
                self@.contains_key(key) == input_map_of(self.entries@.take(i as int)).contains_key(
                    key,
                ),
                self@.contains_key(key) ==> self@[key] == input_map_of(
                    self.entries@.take(i as int),
                )[key],
            decreases i,
        {
            i = i - 1;
            proof {
                assert(self.entries@.take(i + 1).drop_last() =~= self.entries@.take(i as int));
                assert(self.entries@.take(i + 1).last() == self.entries@[i as int]);
            }
            let entry = &self.entries[i];
            if entry.0 == key {
                return Some(entry.1.clone());
            }
        }
        proof {
            assert(self.entries@.take(0) =~= Seq::<(InputKey, String)>::empty());
        }
        None
    }

    /// The entries, oldest first; their map image is the tier's.
    pub fn entries(&self) -> (r: &Vec<(InputKey, String)>)
        ensures
            input_map_of(r@) == self@,
    {
        &self.entries
    }
}

/// The fast in-memory tier over example keys, holding raw page HTML.
pub struct ExampleTier {
    entries: Vec<(ExampleKey, String)>,
}

impl View for ExampleTier {
    type V = Map<ExampleKey, Seq<char>>;

    closed spec fn view(&self) -> Map<ExampleKey, Seq<char>> {
        example_map_of(self.entries@)
    }
}

impl ExampleTier {
    /// An empty tier.
    pub fn new() -> (r: ExampleTier)
        ensures
            r@ == Map::<ExampleKey, Seq<char>>::empty(),
    {
        ExampleTier { entries: Vec::new() }
    }

    /// Insert or overwrite the text stored under a key.
    pub fn insert(&mut self, key: ExampleKey, text: String)
        ensures
            final(self)@ == old(self)@.insert(key, text@),
    {
        self.entries.push((key, text));
        proof {
            assert(self.entries@.drop_last() =~= old(self).entries@);
        }
    }

    /// Look a key up.
    pub fn get(&self, key: ExampleKey) -> (r: Option<String>)
        ensures
            r is Some <==> self@.contains_key(key),
            r is Some ==> r->0@ == self@[key],
    {
        let mut i = self.entries.len();
        proof {
            assert(self.entries@.take(i as int) =~= self.entries@);
        }
        while i > 0
            invariant
                i <= self.entries@.len(),
                self@.contains_key(key) == example_map_of(
                    self.entries@.take(i as int),
                ).contains_key(key),
                self@.contains_key(key) ==> self@[key] == example_map_of(
                    self.entries@.take(i as int),
                )[key],
            decreases i,
        {
            i = i - 1;
            proof {
                assert(self.entries@.take(i + 1).drop_last() =~= self.entries@.take(i as int));
                assert(self.entries@.take(i + 1).last() == self.entries@[i as int]);
            }
            let entry = &self.entries[i];
            if entry.0 == key {
                return Some(entry.1.clone());
            }
        }
        proof {
            assert(self.entries@.take(0) =~= Seq::<(ExampleKey, String)>::empty());
        }
        None
    }

    /// The entries, oldest first; their map image is the tier's.
    pub fn entries(&self) -> (r: &Vec<(ExampleKey, String)>)
        ensures
            example_map_of(r@) == self@,
    {
        &self.entries
    }
}

/// The durable-store capability: key-to-text storage for both key spaces
/// plus a single timestamp slot (milliseconds since the epoch), surviving
/// process restarts. Implementations degrade gracefully — a failed durable
/// write is handled inside the implementation (warn and continue), never
/// surfaced — so the contract describes the store an orderly implementation
/// maintains.
pub trait PersistentCacheProvider: Sized {
    /// The input texts the store holds. The default model is the empty
    /// store; an implementation whose contents proofs rely on overrides it.
    open spec fn inputs(&self) -> Map<InputKey, Seq<char>> {
        Map::empty()
    }

    /// The example page texts the store holds; default model as above.
    open spec fn examples(&self) -> Map<ExampleKey, Seq<char>> {
        Map::empty()
    }

    /// The stored throttle timestamp, if one has been saved; default model
    /// as above.
    open spec fn timestamp(&self) -> Option<u64> {
        None
    }

    /// Store one input text.
    fn save(&mut self, key: InputKey, text: String)
        ensures
            final(self).inputs() == old(self).inputs().insert(key, text@),
            final(self).examples() == old(self).examples(),
            final(self).timestamp() == old(self).timestamp(),
    ;

    /// Store one example page text.
    fn save_example(&mut self, key: ExampleKey, html: String)
        ensures
            final(self).inputs() == old(self).inputs(),
            final(self).examples() == old(self).examples().insert(key, html@),
            final(self).timestamp() == old(self).timestamp(),
    ;

    /// Store the throttle timestamp.
    fn save_throttle_timestamp(&mut self, timestamp_ms: u64)
        ensures
            final(self).inputs() == old(self).inputs(),
            final(self).examples() == old(self).examples(),
            final(self).timestamp() == Some(timestamp_ms),
    ;

    /// Load the input text stored under a key, if any.
    fn load(&self, key: InputKey) -> (r: Option<String>)
        ensures
            r is Some <==> self.inputs().contains_key(key),
            r is Some ==> r->0@ == self.inputs()[key],
    ;

    /// Load the example page text stored under a key, if any.
    fn load_example(&self, key: ExampleKey) -> (r: Option<String>)
        ensures
            r is Some <==> self.examples().contains_key(key),
            r is Some ==> r->0@ == self.examples()[key],
    ;

    /// Load the stored throttle timestamp, if any.
    fn load_throttle_timestamp(&self) -> (r: Option<u64>)
        ensures
            r == self.timestamp(),
    ;

    /// Store the throttle timestamp and every given entry of both key
    /// spaces, entries for the same key overwriting in order.
    fn save_all(
        &mut self,
        inputs: &Vec<(InputKey, String)>,
        examples: &Vec<(ExampleKey, String)>,
        timestamp_ms: u64,
    )
        ensures
            final(self).inputs() == old(self).inputs().union_prefer_right(input_map_of(inputs@)),
            final(self).examples() == old(self).examples().union_prefer_right(
                example_map_of(examples@),
            ),
            final(self).timestamp() == Some(timestamp_ms),
    ;
}

/// Folding one more entry into a map image commutes with taking the union:
/// inserting after the union equals the union with the insert folded in.
proof fn lemma_union_insert<K, V>(m: Map<K, V>, x: Map<K, V>, k: K, v: V)
    ensures
        m.union_prefer_right(x.insert(k, v)) == m.union_prefer_right(x).insert(k, v),
{
    assert(m.union_prefer_right(x.insert(k, v)) =~= m.union_prefer_right(x).insert(k, v));
}

/// A purely in-memory durable store: the verified implementation of the
/// capability, fit for tests and for sessions that keep everything in one
/// process.
pub struct MemoryCacheProvider {
    input_tier: InputTier,
    example_tier: ExampleTier,
    timestamp_ms: Option<u64>,
}

impl MemoryCacheProvider {
    /// An empty store with no timestamp saved.
    pub fn new() -> (r: MemoryCacheProvider)
        ensures
            r.inputs() == Map::<InputKey, Seq<char>>::empty(),
            r.examples() == Map::<ExampleKey, Seq<char>>::empty(),
            r.timestamp() is None,
    {
        MemoryCacheProvider {
            input_tier: InputTier::new(),
            example_tier: ExampleTier::new(),
            timestamp_ms: None,
        }
    }
}

impl PersistentCacheProvider for MemoryCacheProvider {
    closed spec fn inputs(&self) -> Map<InputKey, Seq<char>> {
        self.input_tier@
    }

    closed spec fn examples(&self) -> Map<ExampleKey, Seq<char>> {
        self.example_tier@
    }

    closed spec fn timestamp(&self) -> Option<u64> {
        self.timestamp_ms
    }

    fn save(&mut self, key: InputKey, text: String) {
        self.input_tier.insert(key, text);
    }

    fn save_example(&mut self, key: ExampleKey, html: String) {
        self.example_tier.insert(key, html);
    }

    fn save_throttle_timestamp(&mut self, timestamp_ms: u64) {
        self.timestamp_ms = Some(timestamp_ms);
    }

    fn load(&self, key: InputKey) -> (r: Option<String>) {
        self.input_tier.get(key)
    }

    fn load_example(&self, key: ExampleKey) -> (r: Option<String>) {
        self.example_tier.get(key)
    }

    fn load_throttle_timestamp(&self) -> (r: Option<u64>) {
        self.timestamp_ms
    }

    fn save_all(
        &mut self,
        inputs: &Vec<(InputKey, String)>,
        examples: &Vec<(ExampleKey, String)>,
        timestamp_ms: u64,
    ) {
        self.save_throttle_timestamp(timestamp_ms);
        let ghost base_inputs = self.input_tier@;
        let mut i: usize = 0;
        proof {
            assert(inputs@.take(0) =~= Seq::<(InputKey, String)>::empty());
            assert(base_inputs.union_prefer_right(input_map_of(inputs@.take(0))) =~= base_inputs);
        }
        while i < inputs.len()
            invariant
                i <= inputs@.len(),
                self.example_tier@ == old(self).example_tier@,
                self.timestamp_ms == Some(timestamp_ms),
                self.input_tier@ == base_inputs.union_prefer_right(
                    input_map_of(inputs@.take(i as int)),
                ),
                base_inputs == old(self).input_tier@,
            decreases inputs@.len() - i,
        {
            let entry = &inputs[i];
            proof {
                assert(inputs@.take(i + 1).drop_last() =~= inputs@.take(i as int));
                assert(inputs@.take(i + 1).last() == inputs@[i as int]);
                lemma_union_insert(
                    base_inputs,
                    input_map_of(inputs@.take(i as int)),
                    inputs@[i as int].0,
                    inputs@[i as int].1@,
                );
            }
            self.input_tier.insert(entry.0, entry.1.clone());
            i += 1;
        }
        proof {
            assert(inputs@.take(inputs@.len() as int) =~= inputs@);
        }
        let ghost base_examples = self.example_tier@;
        let mut j: usize = 0;
        proof {
            assert(examples@.take(0) =~= Seq::<(ExampleKey, String)>::empty());
            assert(base_examples.union_prefer_right(example_map_of(examples@.take(0)))
                =~= base_examples);
        }
        while j < examples.len()
            invariant
                j <= examples@.len(),
                self.timestamp_ms == Some(timestamp_ms),
                self.input_tier@ == old(self).input_tier@.union_prefer_right(
                    input_map_of(inputs@),
                ),
                self.example_tier@ == base_examples.union_prefer_right(
                    example_map_of(examples@.take(j as int)),
                ),
                base_examples == old(self).example_tier@,
            decreases examples@.len() - j,
        {
            let entry = &examples[j];
            proof {
                assert(examples@.take(j + 1).drop_last() =~= examples@.take(j as int));
                assert(examples@.take(j + 1).last() == examples@[j as int]);
                lemma_union_insert(
                    base_examples,
                    example_map_of(examples@.take(j as int)),
                    examples@[j as int].0,
                    examples@[j as int].1@,
                );
            }
            self.example_tier.insert(entry.0, entry.1.clone());
            j += 1;
        }
        proof {
            assert(examples@.take(examples@.len() as int) =~= examples@);
        }
    }
}

/// Law: the persisted throttle timestamp round-trips. Saving a timestamp
/// and then loading it yields exactly the saved instant, for any store
/// meeting the capability contract.
pub fn saved_timestamp_round_trips<C: PersistentCacheProvider>(store: &mut C, timestamp_ms: u64)
    -> (r: Option<u64>)
    ensures
        r == Some(timestamp_ms),
{
    store.save_throttle_timestamp(timestamp_ms);
    store.load_throttle_timestamp()
}

/// The directory half of the file-backed durable store: the store itself
/// performs filesystem work in the surrounding program; here stand its
/// configured cache directory and the verified construction of the paths it
/// reads and writes.
pub struct FileCacheProvider {
    pub cache_dir: String,
}

/// The path under the cache directory of one input text.
pub open spec fn spec_input_path(dir: Seq<char>, key: InputKey) -> Seq<char> {
    dir + "/libaoc/"@ + dec_int(key.year as int) + "/"@ + dec_int(key.day as int) + ".txt"@
}

/// The path under the cache directory of one example page text.
pub open spec fn spec_example_path(dir: Seq<char>, key: ExampleKey) -> Seq<char> {
    dir + "/libaoc/examples/"@ + dec_int(key.year as int) + "/"@ + dec_int(key.day as int) + "_"@
        + dec_int(key.part as int) + ".html"@
}

/// The path under the cache directory of the throttle timestamp.
pub open spec fn spec_timestamp_path(dir: Seq<char>) -> Seq<char> {
    dir + "/libaoc/throttle_timestamp"@
}

impl FileCacheProvider {
    /// A file-backed store rooted at the given cache directory.
    pub fn new_with_dir(dir: String) -> (r: FileCacheProvider)
        ensures
            r.cache_dir@ == dir@,
    {
        FileCacheProvider { cache_dir: dir }
    }

    /// The file path holding the input text for a key.
    pub fn input_path(&self, key: InputKey) -> (r: String)
        ensures
            r@ == spec_input_path(self.cache_dir@, key),
    {
        let mut r = self.cache_dir.clone();
        r.append("/libaoc/");
        r.append(fmt_i32(key.year).as_str());
        r.append("/");
        r.append(fmt_i32(key.day).as_str());
        r.append(".txt");
        r
    }

    /// The file path holding the example page text for a key.
    pub fn example_path(&self, key: ExampleKey) -> (r: String)
        ensures
            r@ == spec_example_path(self.cache_dir@, key),
    {
        let mut r = self.cache_dir.clone();
        r.append("/libaoc/examples/");
        r.append(fmt_i32(key.year).as_str());
        r.append("/");
        r.append(fmt_i32(key.day).as_str());
        r.append("_");
        r.append(fmt_i32(key.part).as_str());
        r.append(".html");
        r
    }

    /// The file path holding the throttle timestamp.
    pub fn timestamp_path(&self) -> (r: String)
        ensures
            r@ == spec_timestamp_path(self.cache_dir@),
    {
        let mut r = self.cache_dir.clone();
        r.append("/libaoc/throttle_timestamp");
        r
    }
}

} // verus!
