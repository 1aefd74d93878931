//! The reply to a request for the bikes.

use vstd::prelude::*;
use crate::database::daos::bike;
use crate::database::models::BikeTranslatable;
use crate::database::store::Store;

verus! {

/// The display data of every bike in every locale, each row as it is
/// stored, absent descriptions and addresses left absent.
pub fn get_bikes(store: &Store) -> (data: Vec<BikeTranslatable>)
    ensures
        data@ == store@.bike_translatables,
{
    bike::get_bikes(store)
}

} // verus!
