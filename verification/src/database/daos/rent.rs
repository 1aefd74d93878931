//! The booking engine: which rents are active, when a booking is accepted,
//! and how a booking is revoked.
//!
//! A rent is active until it is revoked, and it is revoked at most once. A
//! booking is refused while an active rent starts within the booking's
//! period, bounds included, whichever bike either is for. A booking whose
//! period starts inside an active rent's period, after that rent's start, is
//! not refused on that account.

use vstd::prelude::*;
use crate::bindings::current_micros;
use crate::database::models::{Booking, InsertRent, InsertRentDetail, Rent, Timestamp, Uuid};
use crate::database::selection::{lemma_filter_finds, lemma_filter_next};
use crate::database::store::{
    new_rent, new_rent_detail, next_id, next_key, token_with_uuid, uuid_known, Store, Tables,
    KEYS_EXHAUSTED,
};
use crate::routes::errors::{RentError, RECORD_NOT_FOUND};

verus! {

/// What a client reads when a booking is refused for an active rent.
pub const RENT_AT_SAME_PERIOD: &'static str = "There is already a rent at the same period.";

/// The rent has not been revoked.
pub open spec fn is_active(rent: Rent) -> bool {
    rent.revocation_timestamp is None
}

/// The rent is active and does not end before `as_of`.
pub open spec fn active_as_of(rent: Rent, as_of: Timestamp) -> bool {
    is_active(rent) && rent.end_timestamp >= as_of
}

/// The test that selects the rents that are active as of a point in time.
pub open spec fn active_test(as_of: Timestamp) -> spec_fn(Rent) -> bool {
    |rent: Rent| active_as_of(rent, as_of)
}

/// The rents that are active as of a point in time, in table order.
pub open spec fn active_rents(rents: Seq<Rent>, as_of: Timestamp) -> Seq<Rent> {
    rents.filter(active_test(as_of))
}

/// The rent is active and starts within the period, bounds included.
pub open spec fn blocks(rent: Rent, start: Timestamp, end: Timestamp) -> bool {
    is_active(rent) && start <= rent.start_timestamp <= end
}

/// The test that selects the rents that stand against a booking of the
/// period.
pub open spec fn blocking_test(start: Timestamp, end: Timestamp) -> spec_fn(Rent) -> bool {
    |rent: Rent| blocks(rent, start, end)
}

/// The rents that stand against a booking of the period, in table order.
pub open spec fn blocking_rents(rents: Seq<Rent>, start: Timestamp, end: Timestamp) -> Seq<Rent> {
    rents.filter(blocking_test(start, end))
}

/// The rent is active and was booked with the token of the given key.
pub open spec fn held_by(rent: Rent, token_id: i32) -> bool {
    is_active(rent) && rent.token_id == token_id
}

/// Some rent is active for the token of the given key.
pub open spec fn holds_rent(rents: Seq<Rent>, token_id: i32) -> bool {
    exists|k: int| 0 <= k < rents.len() && held_by(rents[k], token_id)
}

/// The place of the first rent that is active for the token.
pub open spec fn first_held(rents: Seq<Rent>, token_id: i32) -> int {
    choose|k: int|
        0 <= k < rents.len() && held_by(rents[k], token_id) && forall|j: int|
            0 <= j < k ==> !held_by(rents[j], token_id)
}

/// Why a booking is refused.
pub enum BookingRefusal {
    /// An active rent starts within the booking's period.
    Conflict,
    /// No token carries the booking's identifier.
    UnknownToken,
    /// The rent table or the detail table has no key left.
    KeysExhausted,
}

/// Why a revocation is refused.
pub enum RevocationRefusal {
    /// No token carries the identifier.
    UnknownToken,
    /// The token has no active rent: none was booked, or it is revoked.
    NoActiveRent,
}

/// The reason for which a booking is refused on the given tables, if it is.
/// The conflict is looked for first, then the token, then the keys.
pub open spec fn booking_refusal(tables: Tables, booking: Booking) -> Option<BookingRefusal> {
    if blocking_rents(tables.rents, booking.start_timestamp, booking.end_timestamp).len() > 0 {
        Some(BookingRefusal::Conflict)
    } else if !uuid_known(tables.tokens, booking.token) {
        Some(BookingRefusal::UnknownToken)
    } else if next_key(tables.rents) > i32::MAX || next_key(tables.rent_details) > i32::MAX {
        Some(BookingRefusal::KeysExhausted)
    } else {
        None
    }
}

/// The rent that an accepted booking adds.
pub open spec fn booked_rent(tables: Tables, booking: Booking, now: Timestamp) -> Rent {
    new_rent(
        next_key(tables.rents) as i32,
        InsertRent {
            token_id: token_with_uuid(tables.tokens, booking.token).unwrap().id,
            bike_id: booking.bike_id,
            start_timestamp: booking.start_timestamp,
            end_timestamp: booking.end_timestamp,
        },
        now,
    )
}

/// The tables after an accepted booking: one more rent, and its detail
/// record with the booking's payload as it came.
pub open spec fn booked(tables: Tables, booking: Booking, now: Timestamp) -> Tables {
    let rent = booked_rent(tables, booking, now);
    let detail = new_rent_detail(
        next_key(tables.rent_details) as i32,
        InsertRentDetail { rent_id: rent.id, encrypted_details: booking.encrypted_details },
    );
    Tables {
        rents: tables.rents.push(rent),
        rent_details: tables.rent_details.push(detail),
        ..tables
    }
}

/// The error reports the refusal of a booking.
pub open spec fn reports_booking_refusal(error: RentError, refusal: BookingRefusal) -> bool {
    match refusal {
        BookingRefusal::Conflict => error matches RentError::Validation(text) && text@
            == RENT_AT_SAME_PERIOD@,
        BookingRefusal::UnknownToken => error matches RentError::NotFound(text) && text@
            == RECORD_NOT_FOUND@,
        BookingRefusal::KeysExhausted => error matches RentError::Database(text) && text@
            == KEYS_EXHAUSTED@,
    }
}

/// The reason for which a revocation is refused on the given tables, if it
/// is.
pub open spec fn revocation_refusal(tables: Tables, token: Uuid) -> Option<RevocationRefusal> {
    match token_with_uuid(tables.tokens, token) {
        None => Some(RevocationRefusal::UnknownToken),
        Some(row) => if holds_rent(tables.rents, row.id) {
            None
        } else {
            Some(RevocationRefusal::NoActiveRent)
        },
    }
}

/// The tables after an accepted revocation: the token's first active rent
/// carries the time of revocation, and nothing else has changed.
pub open spec fn revoked(tables: Tables, token: Uuid, now: Timestamp) -> Tables {
    let k = first_held(tables.rents, token_with_uuid(tables.tokens, token).unwrap().id);
    Tables {
        rents: tables.rents.update(
            k,
            Rent { revocation_timestamp: Some(now), ..tables.rents[k] },
        ),
        ..tables
    }
}

/// The rents that are active as of `as_of`: those that are not revoked and
/// do not end before it, in table order.
pub fn get_rents(store: &Store, as_of: Timestamp) -> (found: Vec<Rent>)
    ensures
        found@ == active_rents(store@.rents, as_of),
        forall|i: int|
            0 <= i < found@.len() ==> found@[i].revocation_timestamp is None
                && found@[i].end_timestamp >= as_of,
{
    let mut found: Vec<Rent> = Vec::new();
    let mut k: usize = 0;
    while k < store.rents.len()
        invariant
            k <= store.rents.len(),
            found@ == active_rents(store.rents@.take(k as int), as_of),
        decreases store.rents.len() - k,
    {
        let rent = store.rents[k];
        proof {
            lemma_filter_next(store.rents@, active_test(as_of), k as int);
        }
        if rent.revocation_timestamp.is_none() && rent.end_timestamp >= as_of {
            found.push(rent);
        }
        k += 1;
    }
    proof {
        assert(store.rents@.take(k as int) =~= store.rents@);
        assert forall|i: int| 0 <= i < found@.len() implies active_as_of(found@[i], as_of) by {
            store.rents@.lemma_filter_pred(active_test(as_of), i);
        }
    }
    found
}

/// The number of rents that stand against a booking of the period: the
/// active rents that start within it, bounds included.
pub fn overlapping_rent_count(store: &Store, start: Timestamp, end: Timestamp) -> (count: usize)
    ensures
        count == blocking_rents(store@.rents, start, end).len(),
{
    let mut count: usize = 0;
    let mut k: usize = 0;
    while k < store.rents.len()
        invariant
            k <= store.rents.len(),
            count <= k,
            count == blocking_rents(store.rents@.take(k as int), start, end).len(),
        decreases store.rents.len() - k,
    {
        let rent = store.rents[k];
        proof {
            lemma_filter_next(store.rents@, blocking_test(start, end), k as int);
        }
        if rent.revocation_timestamp.is_none() && start <= rent.start_timestamp
            && rent.start_timestamp <= end {
            count += 1;
        }
        k += 1;
    }
    proof {
        assert(store.rents@.take(k as int) =~= store.rents@);
    }
    count
}

/// Books at the moment `now`, as one step that takes effect in full or not
/// at all.
///
/// The booking is refused for a conflict while an active rent starts within
/// its period; else as not found unless a token carries its identifier; else
/// by the store where a table has no key left. An accepted booking adds the
/// rent, created at `now`, and its detail record.
pub fn insert_booking_at(store: &mut Store, booking: &Booking, now: Timestamp) -> (outcome: Result<
    (),
    RentError,
>)
    requires
        old(store).wf(),
    ensures
        final(store).wf(),
        outcome is Ok <==> booking_refusal(old(store)@, *booking) is None,
        outcome is Ok ==> final(store)@ == booked(old(store)@, *booking, now),
        outcome matches Err(error) ==> final(store)@ == old(store)@ && reports_booking_refusal(
            error,
            booking_refusal(old(store)@, *booking).unwrap(),
        ),
{
    let overlapping = overlapping_rent_count(
        store,
        booking.start_timestamp,
        booking.end_timestamp,
    );
    if overlapping > 0 {
        return Err(RentError::Validation(RENT_AT_SAME_PERIOD.to_owned()));
    }
    let token = match store.find_token(booking.token) {
        Some(token) => token,
        None => {
            return Err(RentError::NotFound(RECORD_NOT_FOUND.to_owned()));
        },
    };
    if next_id(&store.rents).is_none() || next_id(&store.rent_details).is_none() {
        return Err(RentError::Database(KEYS_EXHAUSTED.to_owned()));
    }
    let rent = InsertRent {
        token_id: token.id,
        bike_id: booking.bike_id,
        start_timestamp: booking.start_timestamp,
        end_timestamp: booking.end_timestamp,
    };
    let inserted_rent = match store.insert_rent(rent, now) {
        Ok(inserted_rent) => inserted_rent,
        Err(refusal) => {
            return Err(RentError::Database(refusal.message()));
        },
    };
    let rent_detail = InsertRentDetail {
        rent_id: inserted_rent.id,
        encrypted_details: booking.encrypted_details.clone(),
    };
    match store.insert_rent_detail(rent_detail) {
        Ok(_) => Ok(()),
        Err(refusal) => Err(RentError::Database(refusal.message())),
    }
}

/// Books at the present moment, as one step that takes effect in full or
/// not at all. Whether the booking is accepted does not depend on the
/// moment; the moment is the new rent's time of creation.
pub fn insert_booking(store: &mut Store, booking: &Booking) -> (outcome: Result<(), RentError>)
    requires
        old(store).wf(),
    ensures
        final(store).wf(),
        outcome is Ok <==> booking_refusal(old(store)@, *booking) is None,
        outcome is Ok ==> exists|now: Timestamp|
            final(store)@ == #[trigger] booked(old(store)@, *booking, now),
        outcome matches Err(error) ==> final(store)@ == old(store)@ && reports_booking_refusal(
            error,
            booking_refusal(old(store)@, *booking).unwrap(),
        ),
{
    let now = current_micros();
    insert_booking_at(store, booking, now)
}

/// Revokes, at the moment `now`, the active rent that was booked with the
/// token, as one step that takes effect in full or not at all.
///
/// The revocation is refused as not found unless a token carries the
/// identifier and has an active rent. An accepted revocation marks the
/// token's first active rent with `now` and changes nothing else.
pub fn revoke_booking_at(store: &mut Store, token: Uuid, now: Timestamp) -> (outcome: Result<
    (),
    RentError,
>)
    requires
        old(store).wf(),
    ensures
        final(store).wf(),
        outcome is Ok <==> revocation_refusal(old(store)@, token) is None,
        outcome is Ok ==> final(store)@ == revoked(old(store)@, token, now),
        outcome matches Err(error) ==> final(store)@ == old(store)@ && (error matches RentError::NotFound(
            text,
        ) && text@ == RECORD_NOT_FOUND@),
{
    let row = match store.find_token(token) {
        Some(row) => row,
        None => {
            return Err(RentError::NotFound(RECORD_NOT_FOUND.to_owned()));
        },
    };
    let mut k: usize = 0;
    while k < store.rents.len()
        invariant
            k <= store.rents.len(),
            store@ == old(store)@,
            old(store).wf(),
            token_with_uuid(old(store)@.tokens, token) == Some(row),
            forall|j: int| 0 <= j < k ==> !held_by(store.rents@[j], row.id),
        decreases store.rents.len() - k,
    {
        let rent = store.rents[k];
        if rent.revocation_timestamp.is_none() && rent.token_id == row.id {
            proof {
                let first = first_held(store.rents@, row.id);
                assert(held_by(store.rents@[k as int], row.id));
                assert(first == k) by {
                    if first < k {
                        assert(!held_by(store.rents@[first], row.id));
                    }
                }
            }
            let marked = Rent { revocation_timestamp: Some(now), ..rent };
            store.rents.set(k, marked);
            proof {
                assert forall|i: int, j: int| 0 <= i < j < store.rents@.len() implies store.rents@[i].id
                    < store.rents@[j].id by {
                    assert(old(store).rents@[i].id < old(store).rents@[j].id);
                }
            }
            return Ok(());
        }
        k += 1;
    }
    Err(RentError::NotFound(RECORD_NOT_FOUND.to_owned()))
}

/// Revokes, at the present moment, the active rent that was booked with the
/// token. Whether the revocation is accepted does not depend on the moment;
/// the moment is the rent's time of revocation.
pub fn revoke_booking(store: &mut Store, token: Uuid) -> (outcome: Result<(), RentError>)
    requires
        old(store).wf(),
    ensures
        final(store).wf(),
        outcome is Ok <==> revocation_refusal(old(store)@, token) is None,
        outcome is Ok ==> exists|now: Timestamp|
            final(store)@ == #[trigger] revoked(old(store)@, token, now),
        outcome matches Err(error) ==> final(store)@ == old(store)@ && (error matches RentError::NotFound(
            text,
        ) && text@ == RECORD_NOT_FOUND@),
{
    let now = current_micros();
    revoke_booking_at(store, token, now)
}

/// A booking is refused for a conflict exactly when some active rent starts
/// within the booking's period, bounds included.
pub proof fn lemma_conflict_iff_blocked(tables: Tables, booking: Booking)
    ensures
        booking_refusal(tables, booking) == Some(BookingRefusal::Conflict) <==> exists|k: int|
            0 <= k < tables.rents.len() && blocks(
                tables.rents[k],
                booking.start_timestamp,
                booking.end_timestamp,
            ),
{
    let test = blocking_test(booking.start_timestamp, booking.end_timestamp);
    lemma_filter_finds(tables.rents, test);
    if exists|k: int|
        0 <= k < tables.rents.len() && blocks(
            tables.rents[k],
            booking.start_timestamp,
            booking.end_timestamp,
        ) {
        let k = choose|k: int|
            0 <= k < tables.rents.len() && blocks(
                tables.rents[k],
                booking.start_timestamp,
                booking.end_timestamp,
            );
        assert(test(tables.rents[k]));
    }
    if booking_refusal(tables, booking) == Some(BookingRefusal::Conflict) {
        let k = choose|k: int| 0 <= k < tables.rents.len() && test(tables.rents[k]);
        assert(blocks(tables.rents[k], booking.start_timestamp, booking.end_timestamp));
    }
}

/// Of two bookings whose periods overlap, not both are committed: once the
/// first is accepted, the second is refused for a conflict, whichever bikes
/// they are for, provided that the second does not start after the first.
/// (A second booking that starts later, inside the first one's period, is
/// not held back by the first.)
pub proof fn lemma_overlapping_bookings_exclude(
    tables: Tables,
    first: Booking,
    second: Booking,
    now: Timestamp,
)
    requires
        tables.wf(),
        booking_refusal(tables, first) is None,
        first.start_timestamp < second.end_timestamp,
        second.start_timestamp < first.end_timestamp,
        second.start_timestamp <= first.start_timestamp,
    ensures
        booking_refusal(booked(tables, first, now), second) == Some(BookingRefusal::Conflict),
{
    let after = booked(tables, first, now);
    let k = tables.rents.len() as int;
    assert(after.rents[k] == booked_rent(tables, first, now));
    assert(blocks(after.rents[k], second.start_timestamp, second.end_timestamp));
    lemma_conflict_iff_blocked(after, second);
}

/// An accepted booking leaves every earlier rent and detail record as it
/// was and adds one active rent together with its detail record, which
/// refers to that rent and carries the booking's payload as it came.
pub proof fn lemma_booking_adds_rent_with_detail(tables: Tables, booking: Booking, now: Timestamp)
    ensures
        booked(tables, booking, now).rents.take(tables.rents.len() as int) == tables.rents,
        booked(tables, booking, now).rent_details.take(tables.rent_details.len() as int)
            == tables.rent_details,
        booked(tables, booking, now).rents.len() == tables.rents.len() + 1,
        booked(tables, booking, now).rent_details.len() == tables.rent_details.len() + 1,
        is_active(booked(tables, booking, now).rents.last()),
        booked(tables, booking, now).rents.last().bike_id == booking.bike_id,
        booked(tables, booking, now).rents.last().start_timestamp == booking.start_timestamp,
        booked(tables, booking, now).rents.last().end_timestamp == booking.end_timestamp,
        booked(tables, booking, now).rents.last().created_at == now,
        booked(tables, booking, now).rent_details.last().rent_id == Some(
            booked(tables, booking, now).rents.last().id,
        ),
        booked(tables, booking, now).rent_details.last().encrypted_details@
            == booking.encrypted_details@,
{
    let after = booked(tables, booking, now);
    assert(after.rents.take(tables.rents.len() as int) =~= tables.rents);
    assert(after.rent_details.take(tables.rent_details.len() as int) =~= tables.rent_details);
}

/// A rent is revoked at most once: where the token has no more than one
/// active rent, a second revocation after an accepted one is refused.
pub proof fn lemma_second_revocation_is_refused(
    tables: Tables,
    token: Uuid,
    first_now: Timestamp,
)
    requires
        tables.wf(),
        revocation_refusal(tables, token) is None,
        forall|i: int, j: int|
            0 <= i < j < tables.rents.len() ==> !(held_by(
                tables.rents[i],
                token_with_uuid(tables.tokens, token).unwrap().id,
            ) && held_by(tables.rents[j], token_with_uuid(tables.tokens, token).unwrap().id)),
    ensures
        revocation_refusal(revoked(tables, token, first_now), token) == Some(
            RevocationRefusal::NoActiveRent,
        ),
{
    let row = token_with_uuid(tables.tokens, token).unwrap();
    let after = revoked(tables, token, first_now);
    let k = first_held(tables.rents, row.id);
    let some = choose|k: int| 0 <= k < tables.rents.len() && held_by(tables.rents[k], row.id);
    lemma_first_held_exists(tables.rents, row.id, some);
    assert(after.tokens == tables.tokens);
    assert forall|j: int| 0 <= j < after.rents.len() implies !held_by(after.rents[j], row.id) by {
        if j != k && held_by(tables.rents[j], row.id) {
            if j < k {
                assert(!(held_by(tables.rents[j], row.id) && held_by(tables.rents[k], row.id)));
            } else {
                assert(!(held_by(tables.rents[k], row.id) && held_by(tables.rents[j], row.id)));
            }
        }
    }
}

/// Where a rent is active for the token, a first such rent exists.
pub proof fn lemma_first_held_exists(rents: Seq<Rent>, token_id: i32, k: int)
    requires
        0 <= k < rents.len(),
        held_by(rents[k], token_id),
    ensures
        0 <= first_held(rents, token_id) <= k,
        held_by(rents[first_held(rents, token_id)], token_id),
        forall|j: int| 0 <= j < first_held(rents, token_id) ==> !held_by(rents[j], token_id),
    decreases k,
{
    if exists|j: int| 0 <= j < k && held_by(rents[j], token_id) {
        let j = choose|j: int| 0 <= j < k && held_by(rents[j], token_id);
        lemma_first_held_exists(rents, token_id, j);
    } else {
        let first = first_held(rents, token_id);
        assert(0 <= k < rents.len() && held_by(rents[k], token_id) && forall|j: int|
            0 <= j < k ==> !held_by(rents[j], token_id));
        if first > k {
            assert(!held_by(rents[k], token_id));
        }
    }
}

/// A revocation changes one rent only, from active to revoked, and no rent
/// that is revoked becomes active again.
pub proof fn lemma_revocation_is_final(tables: Tables, token: Uuid, now: Timestamp, j: int)
    requires
        revocation_refusal(tables, token) is None,
        0 <= j < tables.rents.len(),
    ensures
        revoked(tables, token, now).rents.len() == tables.rents.len(),
        !is_active(tables.rents[j]) ==> revoked(tables, token, now).rents[j] == tables.rents[j],
        is_active(revoked(tables, token, now).rents[j]) ==> revoked(tables, token, now).rents[j]
            == tables.rents[j],
{
    let row = token_with_uuid(tables.tokens, token).unwrap();
    let some = choose|k: int| 0 <= k < tables.rents.len() && held_by(tables.rents[k], row.id);
    lemma_first_held_exists(tables.rents, row.id, some);
}

} // verus!
