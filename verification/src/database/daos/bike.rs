//! The bikes on offer.

use vstd::prelude::*;
use crate::database::models::BikeTranslatable;
use crate::database::store::Store;

verus! {

/// The display data of every bike in every locale, in table order, each row
/// as it is stored.
pub fn get_bikes(store: &Store) -> (found: Vec<BikeTranslatable>)
    ensures
        found@ == store@.bike_translatables,
{
    let mut found: Vec<BikeTranslatable> = Vec::new();
    let mut k: usize = 0;
    while k < store.bike_translatables.len()
        invariant
            k <= store.bike_translatables.len(),
            found@ == store.bike_translatables@.take(k as int),
        decreases store.bike_translatables.len() - k,
    {
        found.push(store.bike_translatables[k].clone());
        assert(store.bike_translatables@.take(k + 1) =~= store.bike_translatables@.take(
            k as int,
        ).push(store.bike_translatables@[k as int]));
        k += 1;
    }
    assert(store.bike_translatables@.take(k as int) =~= store.bike_translatables@);
    found
}

} // verus!
