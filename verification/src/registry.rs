//! The set of dial instances currently on screen, held in a `dashmap::DashSet`.
//!
//! Everything in this module is trusted: each item states what the dashmap
//! source shows of the method it calls.
use dashmap::DashSet;
use vstd::prelude::*;

verus! {

/// `dashmap::DashSet`, carried opaquely; its contents are `registry_ids`.
#[verifier::external_type_specification]
#[verifier::external_body]
#[verifier::reject_recursive_types(K)]
#[verifier::reject_recursive_types(S)]
pub struct ExDashSet<K, S>(DashSet<K, S>);

/// The instance ids held by a registry, each taken by its text.
pub uninterp spec fn registry_ids(set: DashSet<String>) -> Set<Seq<char>>;

/// Calls `DashSet::new`, which builds a set with no keys.
#[verifier::external_body]
pub(crate) fn registry_new() -> (set: DashSet<String>)
    ensures
        registry_ids(set) == Set::<Seq<char>>::empty(),
{
    DashSet::new()
}

/// Calls `DashSet::insert`: afterwards the key is in the set and nothing
/// else changed; the result says whether it was absent before.
#[verifier::external_body]
pub(crate) fn registry_insert(set: &mut DashSet<String>, id: String) -> (added: bool)
    ensures
        registry_ids(*final(set)) == registry_ids(*old(set)).insert(id@),
        added == !registry_ids(*old(set)).contains(id@),
{
    set.insert(id)
}

/// Calls `DashSet::remove`: afterwards the key is not in the set and
/// nothing else changed; the result is the removed key, if there was one.
#[verifier::external_body]
pub(crate) fn registry_remove(set: &mut DashSet<String>, id: &str) -> (removed: Option<String>)
    ensures
        registry_ids(*final(set)) == registry_ids(*old(set)).remove(id@),
        removed is Some <==> registry_ids(*old(set)).contains(id@),
        removed matches Some(k) ==> k@ == id@,
{
    set.remove(id)
}

/// Calls `DashSet::contains`.
#[verifier::external_body]
pub(crate) fn registry_contains(set: &DashSet<String>, id: &str) -> (found: bool)
    ensures
        found == registry_ids(*set).contains(id@),
{
    set.contains(id)
}

/// Calls `DashSet::len`, the number of keys in the set.
#[verifier::external_body]
pub(crate) fn registry_len(set: &DashSet<String>) -> (n: usize)
    ensures
        n == registry_ids(*set).len(),
{
    set.len()
}

/// Walks the set with `DashSet::iter` and clones each key. Every key comes
/// out exactly once; the order is the map's shard order, which is left
/// unstated.
#[verifier::external_body]
pub(crate) fn registry_snapshot(set: &DashSet<String>) -> (ids: Vec<String>)
    ensures
        ids@.map_values(|s: String| s@).to_set() == registry_ids(*set),
        ids@.map_values(|s: String| s@).no_duplicates(),
{
    set.iter().map(|entry| entry.key().clone()).collect()
}

} // verus!
