//! Rows of the relational tables and the records that requests carry.
//!
//! A point in time is a count of microseconds since 1970-01-01T00:00:00 UTC,
//! the resolution at which the store keeps and compares timestamps. A token's
//! identifier is the 128-bit value of its UUID.

use vstd::prelude::*;

verus! {

/// Microseconds since the Unix epoch, in UTC.
pub type Timestamp = i64;

/// The 128-bit value of a UUID.
pub type Uuid = u128;

/// A bike: identity only.
#[derive(Debug, Clone, Copy, PartialEq, Eq, Structural)]
pub struct Bike {
    pub id: i32,
}

/// Localised display data of a bike.
#[derive(Debug, PartialEq, Eq)]
pub struct BikeTranslatable {
    pub id: i32,
    pub bike_id: i32,
    pub locale: String,
    pub title: String,
    pub description: Option<String>,
    pub url: Option<String>,
}

impl Clone for BikeTranslatable {
    fn clone(&self) -> (copy: Self)
        ensures
            copy == *self,
    {
        BikeTranslatable {
            id: self.id,
            bike_id: self.bike_id,
            locale: self.locale.clone(),
            title: self.title.clone(),
            description: self.description.clone(),
            url: self.url.clone(),
        }
    }
}

/// The columns of a bike's display data that the writer supplies.
#[derive(Debug, PartialEq, Eq)]
pub struct InsertBikeTranslatable {
    pub bike_id: i32,
    pub locale: String,
    pub title: String,
    pub description: Option<String>,
    pub url: Option<String>,
}

impl Clone for InsertBikeTranslatable {
    fn clone(&self) -> (copy: Self)
        ensures
            copy == *self,
    {
        InsertBikeTranslatable {
            bike_id: self.bike_id,
            locale: self.locale.clone(),
            title: self.title.clone(),
            description: self.description.clone(),
            url: self.url.clone(),
        }
    }
}

/// A reservation of one bike for the interval from `start_timestamp` to
/// `end_timestamp`. It is active until `revocation_timestamp` is set.
#[derive(Debug, Clone, Copy, PartialEq, Eq, Structural)]
pub struct Rent {
    pub id: i32,
    pub token_id: i32,
    pub bike_id: i32,
    pub created_at: Timestamp,
    pub start_timestamp: Timestamp,
    pub end_timestamp: Timestamp,
    pub revocation_timestamp: Option<Timestamp>,
}

/// A token minted after a correct challenge answer.
#[derive(Debug, Clone, Copy, PartialEq, Eq, Structural)]
pub struct Token {
    pub id: i32,
    pub uuid: Uuid,
    pub created_at: Timestamp,
}

/// A client's request to reserve a bike. `short_token` and `email` serve the
/// notification only and are not stored.
#[derive(Debug, PartialEq, Eq)]
pub struct Booking {
    pub token: Uuid,
    pub bike_id: i32,
    pub start_timestamp: Timestamp,
    pub end_timestamp: Timestamp,
    pub encrypted_details: String,
    pub short_token: String,
    pub email: Option<String>,
}

impl Clone for Booking {
    fn clone(&self) -> (copy: Self)
        ensures
            copy == *self,
    {
        Booking {
            token: self.token,
            bike_id: self.bike_id,
            start_timestamp: self.start_timestamp,
            end_timestamp: self.end_timestamp,
            encrypted_details: self.encrypted_details.clone(),
            short_token: self.short_token.clone(),
            email: self.email.clone(),
        }
    }
}

/// A challenge: identity only.
#[derive(Debug, Clone, Copy, PartialEq, Eq, Structural)]
pub struct TokenChallenge {
    pub id: i32,
}

/// A challenge's question in one locale, with the hash of its answer.
#[derive(Debug, PartialEq, Eq)]
pub struct TokenChallengeTranslatable {
    pub id: i32,
    pub token_challenge_id: i32,
    pub locale: String,
    pub question: String,
    pub answer_hash: String,
    pub url: Option<String>,
}

impl Clone for TokenChallengeTranslatable {
    fn clone(&self) -> (copy: Self)
        ensures
            copy == *self,
    {
        TokenChallengeTranslatable {
            id: self.id,
            token_challenge_id: self.token_challenge_id,
            locale: self.locale.clone(),
            question: self.question.clone(),
            answer_hash: self.answer_hash.clone(),
            url: self.url.clone(),
        }
    }
}

/// The columns of a localised challenge that the writer supplies.
#[derive(Debug, PartialEq, Eq)]
pub struct InsertTokenChallengeTranslatable {
    pub token_challenge_id: i32,
    pub locale: String,
    pub question: String,
    pub answer_hash: String,
    pub url: Option<String>,
}

impl Clone for InsertTokenChallengeTranslatable {
    fn clone(&self) -> (copy: Self)
        ensures
            copy == *self,
    {
        InsertTokenChallengeTranslatable {
            token_challenge_id: self.token_challenge_id,
            locale: self.locale.clone(),
            question: self.question.clone(),
            answer_hash: self.answer_hash.clone(),
            url: self.url.clone(),
        }
    }
}

/// A client's claimed answer to a challenge.
#[derive(Debug, PartialEq, Eq)]
pub struct ChallengeResponse {
    pub token_challenge_id: i32,
    pub answer_hash: String,
}

impl Clone for ChallengeResponse {
    fn clone(&self) -> (copy: Self)
        ensures
            copy == *self,
    {
        ChallengeResponse {
            token_challenge_id: self.token_challenge_id,
            answer_hash: self.answer_hash.clone(),
        }
    }
}

/// The columns of a rent that the writer supplies.
#[derive(Debug, Clone, Copy, PartialEq, Eq, Structural)]
pub struct InsertRent {
    pub token_id: i32,
    pub bike_id: i32,
    pub start_timestamp: Timestamp,
    pub end_timestamp: Timestamp,
}

/// The columns of a rent's detail record that the writer supplies.
#[derive(Debug, PartialEq, Eq)]
pub struct InsertRentDetail {
    pub rent_id: i32,
    pub encrypted_details: String,
}

impl Clone for InsertRentDetail {
    fn clone(&self) -> (copy: Self)
        ensures
            copy == *self,
    {
        InsertRentDetail {
            rent_id: self.rent_id,
            encrypted_details: self.encrypted_details.clone(),
        }
    }
}

/// The encrypted companion record of a rent. The payload is opaque.
#[derive(Debug, PartialEq, Eq)]
pub struct RentDetail {
    pub id: i32,
    pub rent_id: Option<i32>,
    pub encrypted_details: String,
}

impl Clone for RentDetail {
    fn clone(&self) -> (copy: Self)
        ensures
            copy == *self,
    {
        RentDetail {
            id: self.id,
            rent_id: self.rent_id,
            encrypted_details: self.encrypted_details.clone(),
        }
    }
}

/// A kind of supporter.
#[derive(Debug, PartialEq, Eq)]
pub struct SupporterType {
    pub id: i32,
    pub title: String,
}

impl Clone for SupporterType {
    fn clone(&self) -> (copy: Self)
        ensures
            copy == *self,
    {
        SupporterType {
            id: self.id,
            title: self.title.clone(),
        }
    }
}

/// A supporter, of at most one kind.
#[derive(Debug, Clone, Copy, PartialEq, Eq, Structural)]
pub struct Supporter {
    pub id: i32,
    pub supporter_type_id: Option<i32>,
}

/// Localised display data of a supporter.
#[derive(Debug, PartialEq, Eq)]
pub struct SupporterTranslatable {
    pub id: i32,
    pub supporter_id: i32,
    pub locale: String,
    pub title: String,
    pub description: Option<String>,
    pub url: Option<String>,
    pub logo_url: Option<String>,
    pub logo_width: Option<i16>,
    pub logo_height: Option<i16>,
    pub logo_alt_text: Option<String>,
}

impl Clone for SupporterTranslatable {
    fn clone(&self) -> (copy: Self)
        ensures
            copy == *self,
    {
        SupporterTranslatable {
            id: self.id,
            supporter_id: self.supporter_id,
            locale: self.locale.clone(),
            title: self.title.clone(),
            description: self.description.clone(),
            url: self.url.clone(),
            logo_url: self.logo_url.clone(),
            logo_width: self.logo_width,
            logo_height: self.logo_height,
            logo_alt_text: self.logo_alt_text.clone(),
        }
    }
}

/// A supporter joined with its kind and one of its localisations.
#[derive(Debug, PartialEq, Eq)]
pub struct SupporterWithTypeAndTranslatable {
    pub id: i32,
    pub supporter_type_title: String,
    pub locale: String,
    pub title: String,
    pub description: Option<String>,
    pub url: Option<String>,
    pub logo_url: Option<String>,
    pub logo_width: Option<i16>,
    pub logo_height: Option<i16>,
    pub logo_alt_text: Option<String>,
}

impl Clone for SupporterWithTypeAndTranslatable {
    fn clone(&self) -> (copy: Self)
        ensures
            copy == *self,
    {
        SupporterWithTypeAndTranslatable {
            id: self.id,
            supporter_type_title: self.supporter_type_title.clone(),
            locale: self.locale.clone(),
            title: self.title.clone(),
            description: self.description.clone(),
            url: self.url.clone(),
            logo_url: self.logo_url.clone(),
            logo_width: self.logo_width,
            logo_height: self.logo_height,
            logo_alt_text: self.logo_alt_text.clone(),
        }
    }
}

} // verus!
