//! The bijective map between display names and addresses, kept in a
//! `bimap::BiMap`.
//!
//! Verus does not read the `bimap` crate. What this file states of it is
//! taken from its source and believed, not proved: the crate keeps two hash
//! maps, one for each direction, and every method below keeps them inverse
//! to each other.

use vstd::prelude::*;
use bimap::BiMap;

verus! {

/// `bimap::BiHashMap`, of which `bimap::BiMap` is the short name. Its inside
/// is hidden; [`pairs`] names what it holds.
#[verifier::external_type_specification]
#[verifier::external_body]
#[verifier::reject_recursive_types(L)]
#[verifier::reject_recursive_types(R)]
#[verifier::reject_recursive_types(LS)]
#[verifier::reject_recursive_types(RS)]
pub struct ExBiHashMap<L, R, LS, RS>(bimap::BiHashMap<L, R, LS, RS>);

/// Display names on the left, addresses on the right.
pub type Names = BiMap<String, u64>;

/// The left-right pairs that a bimap of names and addresses holds, as the
/// map from each left value to its right value. Two names are the same left
/// value when they hold the same characters.
pub uninterp spec fn pairs(names: Names) -> Map<Seq<char>, u64>;

/// What `BiMap::insert` leaves of `pairs` when `name` and `address` go in:
/// the pair that held `name` and the pair that held `address` are gone, and
/// `name` now maps to `address`.
pub open spec fn inserted(pairs: Map<Seq<char>, u64>, name: Seq<char>, address: u64) -> Map<
    Seq<char>,
    u64,
> {
    Map::new(
        |n: Seq<char>| n == name || (pairs.contains_key(n) && pairs[n] != address),
        |n: Seq<char>| if n == name { address } else { pairs[n] },
    )
}

/// `BiMap::new`: a bimap without pairs.
#[verifier::external_body]
pub(crate) fn new() -> (fresh: Names)
    ensures
        pairs(fresh) =~= Map::empty(),
{
    BiMap::new()
}

/// `BiMap::insert`: removes the pair with this left value and the pair with
/// this right value, if there are such, then adds the new pair.
#[verifier::external_body]
pub(crate) fn insert(names: &mut Names, name: String, address: u64)
    ensures
        pairs(*final(names)) == inserted(pairs(*old(names)), name@, address),
{
    names.insert(name, address);
}

/// `BiMap::remove_by_left`: removes the pair with this left value, if there
/// is one, and nothing else.
#[verifier::external_body]
pub(crate) fn remove_by_left(names: &mut Names, name: &str)
    ensures
        pairs(*final(names)) == pairs(*old(names)).remove(name@),
{
    names.remove_by_left(name);
}

/// `BiMap::get_by_left`: the right value paired with this left value, if
/// there is such a pair.
#[verifier::external_body]
pub(crate) fn get_by_left(names: &Names, name: &str) -> (address: Option<u64>)
    ensures
        address == (if pairs(*names).contains_key(name@) {
            Some(pairs(*names)[name@])
        } else {
            None
        }),
{
    names.get_by_left(name).copied()
}

} // verus!
