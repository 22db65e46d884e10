//! The engine's hash collections, as far as the fixture fills them.
//!
//! The map and the set are the engine's own: new-types over `hashbrown` that
//! hash with a fixed seed. Their insides are not visible to the verifier, so
//! what they hold is named here and the contracts below are taken on trust
//! from the engine's source.

use bevy::platform::collections::{HashMap, HashSet};
use bevy::platform::hash::FixedHasher;
use vstd::prelude::*;

verus! {

#[verifier::external_type_specification]
#[verifier::external_body]
pub struct ExFixedHasher(FixedHasher);

#[verifier::external_type_specification]
#[verifier::external_body]
#[verifier::reject_recursive_types(K)]
#[verifier::reject_recursive_types(V)]
#[verifier::reject_recursive_types(S)]
pub struct ExHashMap<K, V, S>(HashMap<K, V, S>);

#[verifier::external_type_specification]
#[verifier::external_body]
#[verifier::reject_recursive_types(T)]
#[verifier::reject_recursive_types(S)]
pub struct ExHashSet<T, S>(HashSet<T, S>);

/// The key-value pairs that a map holds, each key by its characters.
pub uninterp spec fn map_entries(table: HashMap<String, i32, FixedHasher>) -> Map<Seq<char>, i32>;

/// The members of a set.
pub uninterp spec fn set_members(set: HashSet<i32, FixedHasher>) -> Set<i32>;

/// The map without entries.
pub open spec fn no_entries() -> Map<Seq<char>, i32> {
    Map::empty()
}

/// The set without members.
pub open spec fn no_members() -> Set<i32> {
    Set::empty()
}

/// `HashMap::with_hasher` with the fixed-seed hasher: the map it returns
/// holds no entry.
#[verifier::external_body]
pub(crate) fn empty_map() -> (table: HashMap<String, i32, FixedHasher>)
    ensures
        map_entries(table) == no_entries(),
{
    HashMap::with_hasher(FixedHasher)
}

/// `HashMap::insert`: afterwards the map holds `value` under `key` and is
/// otherwise unchanged. The value that `key` had before is returned, or
/// `None` where the map had no such key.
#[verifier::external_body]
pub(crate) fn map_insert(
    table: &mut HashMap<String, i32, FixedHasher>,
    key: String,
    value: i32,
) -> (prior: Option<i32>)
    ensures
        map_entries(*final(table)) == map_entries(*old(table)).insert(key@, value),
        prior == (if map_entries(*old(table)).dom().contains(key@) {
            Some(map_entries(*old(table))[key@])
        } else {
            None
        }),
{
    table.insert(key, value)
}

/// `HashSet::with_hasher` with the fixed-seed hasher: the set it returns has
/// no member.
#[verifier::external_body]
pub(crate) fn empty_set() -> (set: HashSet<i32, FixedHasher>)
    ensures
        set_members(set) == no_members(),
{
    HashSet::with_hasher(FixedHasher)
}

/// `HashSet::insert`: afterwards `value` is a member and the other members
/// are unchanged. Returns `true` exactly where `value` was no member before.
#[verifier::external_body]
pub(crate) fn set_insert(set: &mut HashSet<i32, FixedHasher>, value: i32) -> (fresh: bool)
    ensures
        set_members(*final(set)) == set_members(*old(set)).insert(value),
        fresh == !set_members(*old(set)).contains(value),
{
    set.insert(value)
}

} // verus!
