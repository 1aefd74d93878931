//! The reply to a request for the supporters.

use vstd::prelude::*;
use crate::database::daos::supporter;
use crate::database::daos::supporter::joined_supporters;
use crate::database::models::SupporterWithTypeAndTranslatable;
use crate::database::store::Store;

verus! {

/// Every supporter that has a kind, once for each of its localisations.
pub fn get_supporters(store: &Store) -> (data: Vec<SupporterWithTypeAndTranslatable>)
    ensures
        data@ == joined_supporters(
            store@.supporters,
            store@.supporter_types,
            store@.supporter_translatables,
        ),
{
    supporter::get_supporters(store)
}

} // verus!
