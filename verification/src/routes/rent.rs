//! Requests on rents: which are active, booking one, revoking one.

use vstd::prelude::*;
use crate::bindings::{
    display_uuid, format_time, formatted_time, parse_rfc3339, parse_uuid, rfc3339_reading,
    uuid_reading, uuid_text,
};
use crate::database::daos::rent;
use crate::database::daos::rent::{
    active_rents, booked, booking_refusal, reports_booking_refusal, revocation_refusal, revoked,
};
use crate::database::models::{Booking, Rent, Timestamp};
use crate::database::store::Store;
use crate::mailer::{
    is_mail_from_backend, missing_for_operators, rent_mail, rent_recipients, rent_subject, Mail,
    MailSettings, DATE_PATTERN,
};
use crate::mailer_errors::MailerError;
use crate::routes::errors::{RentError, RECORD_NOT_FOUND};
use crate::routes::TokenReply;

verus! {

/// The moment from which rents are listed where the request names none: the
/// Unix epoch, 1970-01-01T00:00:00Z.
pub const EPOCH: Timestamp = 0;

/// What a client reads when a booking's period cannot be written as days of
/// the calendar.
pub const PERIOD_OFF_CALENDAR: &'static str = "The period of the booking is not on the calendar.";

/// Text of the setting that switches the notification on.
pub const SWITCHED_ON: &'static str = "true";

/// Text of the setting that switches the notification off.
pub const SWITCHED_OFF: &'static str = "false";

/// What a booking leaves for the caller to do and to answer: the booking's
/// token as text, and the notification to send, if one is to be sent.
#[derive(Debug, PartialEq, Eq)]
pub struct BookingReceipt {
    pub token: String,
    pub mail: Option<Mail>,
}

/// The moment that a request names: the epoch where it names none, else
/// what the text reads as, or why it cannot be read.
pub open spec fn as_of_reading(as_of: Option<String>) -> Result<Timestamp, Seq<char>> {
    match as_of {
        None => Ok(EPOCH),
        Some(text) => rfc3339_reading(text@),
    }
}

/// What the notification setting says: on where it is absent, on or off
/// where it says so, nothing where it says anything else.
pub open spec fn mail_switch(setting: Option<String>) -> Option<bool> {
    match setting {
        None => Some(true),
        Some(text) => if text@ == SWITCHED_ON@ {
            Some(true)
        } else if text@ == SWITCHED_OFF@ {
            Some(false)
        } else {
            None
        },
    }
}

/// The days of the booking's period as they are written in a notification,
/// where both lie on the calendar.
pub open spec fn period_days(booking: Booking) -> Option<(Seq<char>, Seq<char>)> {
    match (
        formatted_time(booking.start_timestamp, DATE_PATTERN@),
        formatted_time(booking.end_timestamp, DATE_PATTERN@),
    ) {
        (Some(start_date), Some(end_date)) => Some((start_date, end_date)),
        _ => None,
    }
}

/// Reads the notification setting.
pub fn is_rent_mail_enabled(setting: &Option<String>) -> (enabled: Option<bool>)
    ensures
        enabled == mail_switch(*setting),
{
    match setting {
        None => Some(true),
        Some(text) => {
            if *text == SWITCHED_ON.to_owned() {
                Some(true)
            } else if *text == SWITCHED_OFF.to_owned() {
                Some(false)
            } else {
                None
            }
        },
    }
}

/// Reads the moment that a request names: the epoch where it names none. A
/// text that is no RFC 3339 date and time is refused as unreadable, with the
/// reader's words.
pub fn parse_as_of(as_of: &Option<String>) -> (moment: Result<Timestamp, RentError>)
    ensures
        match as_of_reading(*as_of) {
            Ok(micros) => moment == Ok::<Timestamp, RentError>(micros),
            Err(words) => moment matches Err(RentError::Parse(text)) && text@ == words,
        },
{
    match as_of {
        None => Ok(EPOCH),
        Some(text) => match parse_rfc3339(text.as_str()) {
            Ok(micros) => Ok(micros),
            Err(words) => Err(RentError::Parse(words)),
        },
    }
}

/// Answers a request for the rents that are active as of a moment: those
/// that are not revoked and do not end before it. An unreadable moment is
/// refused before the store is asked.
pub fn get_rents(store: &Store, as_of: &Option<String>) -> (reply: Result<Vec<Rent>, RentError>)
    ensures
        match as_of_reading(*as_of) {
            Ok(micros) => reply matches Ok(data) && data@ == active_rents(store@.rents, micros),
            Err(words) => reply matches Err(RentError::Parse(text)) && text@ == words,
        },
        reply matches Ok(data) ==> forall|i: int|
            0 <= i < data@.len() ==> data@[i].revocation_timestamp is None
                && data@[i].end_timestamp >= as_of_reading(*as_of)->Ok_0,
{
    let moment = match parse_as_of(as_of) {
        Ok(moment) => moment,
        Err(error) => {
            return Err(error);
        },
    };
    Ok(rent::get_rents(store, moment))
}

/// Writes the days of the booking's period as a notification shows them. A
/// period with a bound that is not on the calendar is refused as
/// unreadable.
pub fn write_period(booking: &Booking) -> (days: Result<(String, String), RentError>)
    ensures
        match period_days(*booking) {
            Some((start_date, end_date)) => days matches Ok(written) && written.0@ == start_date
                && written.1@ == end_date,
            None => days matches Err(RentError::Parse(text)) && text@ == PERIOD_OFF_CALENDAR@,
        },
{
    let start_date = match format_time(booking.start_timestamp, DATE_PATTERN) {
        Some(start_date) => start_date,
        None => {
            return Err(RentError::Parse(PERIOD_OFF_CALENDAR.to_owned()));
        },
    };
    match format_time(booking.end_timestamp, DATE_PATTERN) {
        Some(end_date) => Ok((start_date, end_date)),
        None => Err(RentError::Parse(PERIOD_OFF_CALENDAR.to_owned())),
    }
}

/// The reply follows from what the engine made of the booking: the engine's
/// error as it is; else a receipt with the booking's token and, where
/// notifications are on, the notification to send. Where notifications are
/// on and the message cannot be made, the reply is a mail error with the
/// name of the missing setting.
pub open spec fn is_booking_reply(
    reply: Result<BookingReceipt, RentError>,
    inserted: Result<(), RentError>,
    booking: Booking,
    send_mail: bool,
    settings: MailSettings,
    start_date: Seq<char>,
    end_date: Seq<char>,
) -> bool {
    match inserted {
        Err(error) => reply == Err::<BookingReceipt, RentError>(error),
        Ok(_) => if !send_mail {
            reply matches Ok(receipt) && receipt.token@ == uuid_text(booking.token) && receipt.mail
                is None
        } else {
            match missing_for_operators(settings) {
                Some(name) => reply matches Err(RentError::MailError(text)) && text@ == name,
                None => reply matches Ok(receipt) && receipt.token@ == uuid_text(booking.token)
                    && (receipt.mail matches Some(mail) && is_mail_from_backend(
                    mail,
                    settings,
                    rent_recipients(settings.email_to.unwrap()@, booking),
                    rent_subject(start_date, end_date),
                    booking.short_token@,
                )),
            }
        },
    }
}

/// Turns what the engine made of a booking into the reply. The booking
/// stands whatever becomes of its notification.
pub fn booking_reply(
    inserted: Result<(), RentError>,
    booking: &Booking,
    send_mail: bool,
    settings: &MailSettings,
    start_date: &String,
    end_date: &String,
) -> (reply: Result<BookingReceipt, RentError>)
    ensures
        is_booking_reply(
            reply,
            inserted,
            *booking,
            send_mail,
            *settings,
            start_date@,
            end_date@,
        ),
{
    match inserted {
        Err(error) => Err(error),
        Ok(_) => {
            if send_mail {
                match rent_mail(booking, settings, start_date, end_date) {
                    Ok(mail) => Ok(
                        BookingReceipt { token: display_uuid(booking.token), mail: Some(mail) },
                    ),
                    Err(error) => Err(RentError::from(error)),
                }
            } else {
                Ok(BookingReceipt { token: display_uuid(booking.token), mail: None })
            }
        },
    }
}

/// Answers a booking request.
///
/// A period that cannot be written as days of the calendar is refused as
/// unreadable before the engine is asked. Else the engine books, in full or
/// not at all, and the reply follows from its answer as [`booking_reply`]
/// says: a refused booking changes nothing; an accepted one stands, also
/// where its notification cannot be made.
pub fn book(store: &mut Store, booking: &Booking, send_mail: bool, settings: &MailSettings) -> (reply:
    Result<BookingReceipt, RentError>)
    requires
        old(store).wf(),
    ensures
        final(store).wf(),
        period_days(*booking) is None ==> final(store)@ == old(store)@ && (reply matches Err(
            RentError::Parse(text),
        ) && text@ == PERIOD_OFF_CALENDAR@),
        period_days(*booking) matches Some((start_date, end_date)) ==> match booking_refusal(
            old(store)@,
            *booking,
        ) {
            Some(refusal) => final(store)@ == old(store)@ && (reply matches Err(error)
                && reports_booking_refusal(error, refusal)),
            None => (exists|now: Timestamp|
                final(store)@ == #[trigger] booked(old(store)@, *booking, now))
                && is_booking_reply(
                reply,
                Ok(()),
                *booking,
                send_mail,
                *settings,
                start_date,
                end_date,
            ),
        },
{
    let (start_date, end_date) = match write_period(booking) {
        Ok(days) => days,
        Err(error) => {
            return Err(error);
        },
    };
    let inserted = rent::insert_booking(store, booking);
    booking_reply(inserted, booking, send_mail, settings, &start_date, &end_date)
}

/// Closes a booking once its notification has been handed to the transport
/// or none was to be sent: the reply carries the booking's token, or, where
/// the transport failed, a mail error with the transport's words. The
/// booking stands either way.
pub fn confirm_booking(receipt: BookingReceipt, delivery: Result<(), MailerError>) -> (reply: Result<
    TokenReply,
    RentError,
>)
    ensures
        match delivery {
            Ok(_) => reply matches Ok(body) && body.token == receipt.token,
            Err(error) => reply matches Err(RentError::MailError(text)) && text@ == error.text(),
        },
{
    match delivery {
        Ok(_) => Ok(TokenReply { token: receipt.token }),
        Err(error) => Err(RentError::from(error)),
    }
}

/// Answers a request to revoke the booking of a token.
///
/// A text that is no UUID is refused as unreadable, with the reader's
/// words, before the engine is asked. Else the engine revokes, in full or
/// not at all: the revocation is refused as not found unless a token carries
/// the identifier and has an active rent.
pub fn revoke_booking(store: &mut Store, token: &str) -> (reply: Result<(), RentError>)
    requires
        old(store).wf(),
    ensures
        final(store).wf(),
        match uuid_reading(token@) {
            Err(words) => final(store)@ == old(store)@ && (reply matches Err(
                RentError::Parse(text),
            ) && text@ == words),
            Ok(uuid) => match revocation_refusal(old(store)@, uuid) {
                Some(_) => final(store)@ == old(store)@ && (reply matches Err(
                    RentError::NotFound(text),
                ) && text@ == RECORD_NOT_FOUND@),
                None => reply is Ok && exists|now: Timestamp|
                    final(store)@ == #[trigger] revoked(old(store)@, uuid, now),
            },
        },
{
    let parsed_token = match parse_uuid(token) {
        Ok(parsed_token) => parsed_token,
        Err(words) => {
            return Err(RentError::Parse(words));
        },
    };
    rent::revoke_booking(store, parsed_token)
}

} // verus!
