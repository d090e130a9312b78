//! The embedded resource table: an immutable mapping from namespaced string
//! key to byte sequence, assembled once before any query and never changed.

use vstd::prelude::*;

verus! {

/// One embedded asset: a namespaced key and the bytes stored under it.
pub struct ResourceEntry {
    /// The table-native key, already namespaced by the asset source.
    pub key: String,
    /// The asset's content; any length, including zero.
    pub bytes: Vec<u8>,
}

impl View for ResourceEntry {
    type V = (Seq<char>, Seq<u8>);

    open spec fn view(&self) -> (Seq<char>, Seq<u8>) {
        (self.key@, self.bytes@)
    }
}

impl ResourceEntry {
    /// Pairs a key with the bytes stored under it.
    pub fn new(key: String, bytes: Vec<u8>) -> (entry: ResourceEntry)
        ensures
            entry.key@ == key@,
            entry.bytes@ == bytes@,
    {
        ResourceEntry { key, bytes }
    }
}

/// The aggregate: a total, read-only mapping from key to bytes. Keys are
/// unique by construction, so the table abstracts to a map from key to
/// byte sequence, which is the table's view.
pub struct ResourceTable {
    entries: Vec<ResourceEntry>,
}

impl View for ResourceTable {
    type V = Map<Seq<char>, Seq<u8>>;

    closed spec fn view(&self) -> Map<Seq<char>, Seq<u8>> {
        Map::new(
            |k: Seq<char>|
                exists|i: int| 0 <= i < self.entries.len() && self.entries[i].key@ == k,
            |k: Seq<char>|
                {
                    let i = choose|i: int|
                        0 <= i < self.entries.len() && self.entries[i].key@ == k;
                    self.entries[i].bytes@
                },
        )
    }
}

impl ResourceTable {
    /// Every key occurs at most once, so each key determines its bytes.
    #[verifier::type_invariant]
    closed spec fn distinct_keys(&self) -> bool {
        forall|i: int, j: int|
            0 <= i < j < self.entries.len() ==> self.entries[i].key@ != self.entries[j].key@
    }

    /// Assembles the table from its entries. Key uniqueness is the
    /// builder's obligation, established here once and never rechecked.
    pub fn new(entries: Vec<ResourceEntry>) -> (t: ResourceTable)
        requires
            forall|i: int, j: int|
                0 <= i < j < entries.len() ==> entries[i].key@ != entries[j].key@,
        ensures
            forall|i: int|
                0 <= i < entries.len() ==> t@.contains_key(#[trigger] entries[i].key@)
                    && t@[entries[i].key@] == entries[i].bytes@,
            forall|k: Seq<char>|
                #[trigger] t@.contains_key(k) ==> exists|i: int|
                    0 <= i < entries.len() && entries[i].key@ == k,
    {
        let t = ResourceTable { entries };
        proof {
            assert forall|i: int|
                0 <= i < t.entries.len() implies t@.contains_key(#[trigger] t.entries[i].key@)
                && t@[t.entries[i].key@] == t.entries[i].bytes@ by {
                let k = t.entries[i].key@;
                let j = choose|j: int| 0 <= j < t.entries.len() && t.entries[j].key@ == k;
                assert(j == i);
            }
        }
        t
    }

    /// Exact-key membership query: a reference to the bytes if the key is
    /// present, the absent sentinel otherwise. A miss is a normal outcome,
    /// never an error, and the call has no side effects.
    pub fn get<'a>(&'a self, key: &str) -> (result: Option<&'a Vec<u8>>)
        ensures
            match result {
                Some(bytes) => self@.contains_key(key@) && bytes@ == self@[key@],
                None => !self@.contains_key(key@),
            },
    {
        proof {
            use_type_invariant(self);
        }
        let wanted: String = key.to_owned();
        let n = self.entries.len();
        let mut i: usize = 0;
        while i < n
            invariant
                n == self.entries.len(),
                i <= n,
                wanted@ == key@,
                self.distinct_keys(),
                forall|j: int| 0 <= j < i ==> self.entries[j].key@ != key@,
            decreases n - i,
        {
            if self.entries[i].key == wanted {
                proof {
                    let j = choose|j: int|
                        0 <= j < self.entries.len() && self.entries[j].key@ == key@;
                    assert(j == i);
                }
                return Some(&self.entries[i].bytes);
            }
            i += 1;
        }
        None
    }
}

} // verus!
