//! The hash set of chunk coordinates that the controller keeps, behind the
//! trusted declarations that describe it.
use vstd::prelude::*;

use bevy::platform::collections::HashSet;
use bevy::platform::hash::FixedHasher;

verus! {

#[verifier::external_type_specification]
#[verifier::external_body]
#[verifier::reject_recursive_types(T)]
#[verifier::reject_recursive_types(S)]
pub struct ExHashSet<T, S>(HashSet<T, S>);

#[verifier::external_type_specification]
#[verifier::external_body]
pub struct ExFixedHasher(FixedHasher);

/// The coordinates held by a set.
pub uninterp spec fn chunk_set(s: HashSet<(i32, i32)>) -> Set<(i32, i32)>;

/// Relies on `bevy::platform::collections::HashSet::new`: the new set is
/// empty.
#[verifier::external_body]
pub(crate) fn empty_set() -> (r: HashSet<(i32, i32)>)
    ensures
        chunk_set(r) == Set::<(i32, i32)>::empty(),
{
    HashSet::new()
}

/// Relies on `HashSet::contains`: whether the value is in the set.
#[verifier::external_body]
pub(crate) fn set_contains(s: &HashSet<(i32, i32)>, v: (i32, i32)) -> (r: bool)
    ensures
        r == chunk_set(*s).contains(v),
{
    s.contains(&v)
}

/// Relies on `HashSet::insert`: the value is in the set afterwards, nothing
/// else changes, and the result says whether it was absent before.
#[verifier::external_body]
pub(crate) fn set_insert(s: &mut HashSet<(i32, i32)>, v: (i32, i32)) -> (r: bool)
    ensures
        chunk_set(*final(s)) == chunk_set(*old(s)).insert(v),
        r == !chunk_set(*old(s)).contains(v),
{
    s.insert(v)
}

/// Relies on `HashSet::remove`: the value is absent afterwards, nothing else
/// changes, and the result says whether it was present before.
#[verifier::external_body]
pub(crate) fn set_remove(s: &mut HashSet<(i32, i32)>, v: (i32, i32)) -> (r: bool)
    ensures
        chunk_set(*final(s)) == chunk_set(*old(s)).remove(v),
        r == chunk_set(*old(s)).contains(v),
{
    s.remove(&v)
}

/// Relies on `HashSet::clear`: the set is empty afterwards.
#[verifier::external_body]
pub(crate) fn set_clear(s: &mut HashSet<(i32, i32)>)
    ensures
        chunk_set(*final(s)) == Set::<(i32, i32)>::empty(),
{
    s.clear();
}

/// Relies on `HashSet::is_empty`: whether the set holds no value.
#[verifier::external_body]
pub(crate) fn set_is_empty(s: &HashSet<(i32, i32)>) -> (r: bool)
    ensures
        r == (chunk_set(*s) == Set::<(i32, i32)>::empty()),
{
    s.is_empty()
}

/// Relies on `HashSet::iter`: it visits every value of the set once, in an
/// order that is not specified.
#[verifier::external_body]
pub(crate) fn set_elements(s: &HashSet<(i32, i32)>) -> (r: Vec<(i32, i32)>)
    ensures
        r@.no_duplicates(),
        forall|v: (i32, i32)| r@.contains(v) <==> chunk_set(*s).contains(v),
{
    s.iter().copied().collect()
}

} // verus!
