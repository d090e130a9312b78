//! The boundary lookup service: the single externally callable operation.
//! It prepends the fixed namespace prefix to a caller-supplied name, probes
//! the embedded table, and on a hit returns a freshly allocated,
//! independently owned copy of the bytes.

use crate::table::ResourceTable;
use vstd::prelude::*;
use vstd::string::StringExecFns;

verus! {

/// What a lookup returns, as a function of the table's mapping, the
/// namespace prefix, and the caller-supplied name: the bytes stored under
/// `prefix + name` if that key is present, absent otherwise. The
/// concatenation is pure, with no separator, escaping, or normalization.
pub open spec fn spec_lookup(
    assets: Map<Seq<char>, Seq<u8>>,
    prefix: Seq<char>,
    name: Seq<char>,
) -> Option<Seq<u8>> {
    if assets.contains_key(prefix + name) {
        Some(assets[prefix + name])
    } else {
        None
    }
}

/// Holds `key` a key of the namespace: it begins with the prefix.
pub open spec fn in_namespace(prefix: Seq<char>, key: Seq<char>) -> bool {
    key.len() >= prefix.len() && key.subrange(0, prefix.len() as int) == prefix
}

/// The lookup service: an immutable table plus the fixed namespace prefix.
/// Both are set once, at construction, before any lookup can run; no method
/// mutates the service, so every call sees the same table.
pub struct LookupService {
    prefix: String,
    table: ResourceTable,
}

impl LookupService {
    /// The namespace prefix, as it was fixed at construction.
    pub closed spec fn prefix(&self) -> Seq<char> {
        self.prefix@
    }

    /// The embedded mapping from namespaced key to bytes.
    pub closed spec fn assets(&self) -> Map<Seq<char>, Seq<u8>> {
        self.table@
    }

    /// Wraps a finished table, fixing the namespace prefix. Nothing can be
    /// looked up before this runs, and nothing changes afterwards.
    pub fn new(prefix: String, table: ResourceTable) -> (service: LookupService)
        ensures
            service.prefix() == prefix@,
            service.assets() == table@,
    {
        LookupService { prefix, table }
    }

    /// Translates the bare name into the table key `prefix + name`, probes
    /// the table, and returns an owned copy of the bytes on a hit, or the
    /// absent result on a miss. A miss is a first-class outcome, not an
    /// error, and an empty buffer is distinguishable from absent.
    pub fn lookup(&self, name: &str) -> (result: Option<Vec<u8>>)
        ensures
            result.deep_view() == spec_lookup(self.assets(), self.prefix(), name@),
            result is Some <==> self.assets().contains_key(self.prefix() + name@),
            result matches Some(bytes) ==> bytes@ == self.assets()[self.prefix() + name@],
    {
        let key: String = self.prefix.clone().concat(name);
        match self.table.get(key.as_str()) {
            Some(bytes) => Some(copy_bytes(bytes)),
            None => None,
        }
    }
}

/// Copies the bytes into a new, independently owned buffer, so the table's
/// own storage is never exposed across the boundary.
fn copy_bytes(bytes: &Vec<u8>) -> (fresh: Vec<u8>)
    ensures
        fresh@ == bytes@,
{
    let n = bytes.len();
    let mut fresh: Vec<u8> = Vec::new();
    let mut i: usize = 0;
    while i < n
        invariant
            n == bytes.len(),
            i <= n,
            fresh@ =~= bytes@.subrange(0, i as int),
        decreases n - i,
    {
        fresh.push(bytes[i]);
        i += 1;
    }
    proof {
        assert(fresh@ =~= bytes@);
    }
    fresh
}

/// The lookup outcome is a function of the table, the prefix, and the name
/// alone: two services built over the same mapping and prefix answer every
/// name identically, however their calls are ordered or interleaved.
pub proof fn lemma_lookup_deterministic(
    s1: LookupService,
    s2: LookupService,
    name: Seq<char>,
)
    requires
        s1.assets() == s2.assets(),
        s1.prefix() == s2.prefix(),
    ensures
        spec_lookup(s1.assets(), s1.prefix(), name) == spec_lookup(
            s2.assets(),
            s2.prefix(),
            name,
        ),
{
}

/// Totality over the namespace: every table key that begins with the
/// prefix is reachable — looking up the key's bare name (the key with the
/// prefix cut off) yields exactly the bytes stored under the key.
pub proof fn lemma_namespaced_key_reachable(
    assets: Map<Seq<char>, Seq<u8>>,
    prefix: Seq<char>,
    key: Seq<char>,
)
    requires
        assets.contains_key(key),
        in_namespace(prefix, key),
    ensures
        spec_lookup(assets, prefix, key.subrange(prefix.len() as int, key.len() as int))
            == Some(assets[key]),
{
    assert(prefix + key.subrange(prefix.len() as int, key.len() as int) =~= key);
}

/// Namespace isolation: every probed key begins with the prefix, so an
/// entry whose key lies outside the namespace is unreachable — removing it
/// from the table changes no lookup's outcome.
pub proof fn lemma_namespace_isolation(
    assets: Map<Seq<char>, Seq<u8>>,
    prefix: Seq<char>,
    name: Seq<char>,
    stray: Seq<char>,
)
    requires
        !in_namespace(prefix, stray),
    ensures
        prefix + name != stray,
        spec_lookup(assets, prefix, name) == spec_lookup(assets.remove(stray), prefix, name),
{
    assert((prefix + name).subrange(0, prefix.len() as int) =~= prefix);
    assert(in_namespace(prefix, prefix + name));
}

} // verus!
