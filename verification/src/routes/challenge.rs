//! Requests for a challenge and answers to one.

use vstd::prelude::*;
use crate::bindings::{display_uuid, find_pattern, pattern_found, uuid_text};
use crate::database::daos::challenge;
use crate::database::daos::challenge::{
    challenges_in_locale, is_answered, mint_result, CHALLENGE_RESPONSE_NOT_VALID,
};
use crate::database::models::{
    ChallengeResponse, Timestamp, Token, TokenChallengeTranslatable, Uuid,
};
use crate::database::store::Store;
use crate::routes::errors::{ChallengeError, RECORD_NOT_FOUND};
use crate::routes::TokenReply;

verus! {

/// The pattern that a locale has to hold: two word characters, a hyphen,
/// two word characters.
pub const LOCALE_PATTERN: &'static str = "\\w{2}-\\w{2}";

/// What a client reads when the locale does not hold the pattern.
pub const NO_VALID_LOCALE: &'static str = "No valid locale passed.";

/// What a client is asked: the challenge, its question, and where to read
/// more. The answer's hash stays behind.
#[derive(Debug, PartialEq, Eq)]
pub struct ChallengeQuestion {
    pub token_challenge_id: i32,
    pub question: String,
    pub url: Option<String>,
}

/// The text holds the locale pattern somewhere.
pub open spec fn is_locale(text: Seq<char>) -> bool {
    pattern_found(LOCALE_PATTERN@, text) == Some(true)
}

/// The question that a stored row asks.
pub open spec fn asks(question: ChallengeQuestion, row: TokenChallengeTranslatable) -> bool {
    &&& question.token_challenge_id == row.token_challenge_id
    &&& question.question == row.question
    &&& question.url == row.url
}

/// Whether the text holds the locale pattern somewhere.
pub fn is_valid_locale(p_locale: &str) -> (valid: bool)
    ensures
        valid == is_locale(p_locale@),
{
    match find_pattern(LOCALE_PATTERN, p_locale) {
        Some(found) => found,
        None => false,
    }
}

/// Turns the ledger's answer to a request for a challenge into the reply:
/// the row's question without its answer, or the ledger's error as it is.
pub fn question_reply(drawn: Result<TokenChallengeTranslatable, ChallengeError>) -> (reply: Result<
    ChallengeQuestion,
    ChallengeError,
>)
    ensures
        match drawn {
            Ok(row) => reply matches Ok(question) && asks(question, row),
            Err(error) => reply == Err::<ChallengeQuestion, ChallengeError>(error),
        },
{
    match drawn {
        Ok(row) => Ok(
            ChallengeQuestion {
                token_challenge_id: row.token_challenge_id,
                question: row.question,
                url: row.url,
            },
        ),
        Err(error) => Err(error),
    }
}

/// Answers a request for a challenge in a locale. A text that does not hold
/// the locale pattern is refused as unreadable before the ledger is asked.
/// Else the reply is one of the locale's questions, or not found where the
/// locale has none.
pub fn get_random_challenge(store: &Store, p_locale: &str) -> (reply: Result<
    ChallengeQuestion,
    ChallengeError,
>)
    ensures
        !is_locale(p_locale@) ==> (reply matches Err(ChallengeError::Parse(text)) && text@
            == NO_VALID_LOCALE@),
        is_locale(p_locale@) ==> (reply is Ok <==> challenges_in_locale(
            store@.token_challenge_translatables,
            p_locale@,
        ).len() > 0),
        is_locale(p_locale@) ==> (reply matches Err(error) ==> error matches ChallengeError::NotFound(
            text,
        ) && text@ == RECORD_NOT_FOUND@),
        reply matches Ok(question) ==> exists|k: int|
            0 <= k < challenges_in_locale(store@.token_challenge_translatables, p_locale@).len()
                && asks(
                question,
                #[trigger] challenges_in_locale(store@.token_challenge_translatables, p_locale@)[k],
            ),
{
    if !is_valid_locale(p_locale) {
        return Err(ChallengeError::Parse(NO_VALID_LOCALE.to_owned()));
    }
    let locale = p_locale.to_owned();
    let drawn = challenge::get_random_challenge(store, &locale);
    question_reply(drawn)
}

/// Turns the ledger's answer to a challenge response into the reply: the
/// minted token's identifier as text, or the ledger's error as it is.
pub fn token_reply(minted: Result<Token, ChallengeError>) -> (reply: Result<
    TokenReply,
    ChallengeError,
>)
    ensures
        match minted {
            Ok(token) => reply matches Ok(body) && body.token@ == uuid_text(token.uuid),
            Err(error) => reply == Err::<TokenReply, ChallengeError>(error),
        },
{
    match minted {
        Ok(token) => Ok(TokenReply { token: display_uuid(token.uuid) }),
        Err(error) => Err(error),
    }
}

/// Answers a challenge response. A wrong answer is refused as not valid and
/// mints nothing. A correct one mints a token with a random identifier, which
/// no earlier token carries, and replies with that identifier.
pub fn test_challenge(store: &mut Store, challenge_response: &ChallengeResponse) -> (reply: Result<
    TokenReply,
    ChallengeError,
>)
    requires
        old(store).wf(),
    ensures
        final(store).wf(),
        !is_answered(old(store)@.token_challenge_translatables, *challenge_response) ==> (final(store)@
            == old(store)@) && (reply matches Err(ChallengeError::Validation(text)) && text@
            == CHALLENGE_RESPONSE_NOT_VALID@),
        reply matches Ok(body) ==> exists|uuid: Uuid, now: Timestamp|
            body.token@ == uuid_text(uuid) && #[trigger] mint_result(
                old(store)@,
                final(store)@,
                *challenge_response,
                uuid,
                now,
                Ok(final(store)@.tokens.last()),
            ) && forall|k: int|
                0 <= k < old(store)@.tokens.len() ==> old(store)@.tokens[k].uuid != uuid,
        reply matches Err(error) ==> final(store)@ == old(store)@ && exists|
            uuid: Uuid,
            now: Timestamp,
        | #[trigger]
            mint_result(
                old(store)@,
                final(store)@,
                *challenge_response,
                uuid,
                now,
                Err(error),
            ),
{
    let minted = challenge::test_challenge(store, challenge_response);
    proof {
        let (uuid, now) = choose|uuid: Uuid, now: Timestamp| #[trigger]
            mint_result(old(store)@, store@, *challenge_response, uuid, now, minted);
        if minted is Ok {
            assert(mint_result(
                old(store)@,
                store@,
                *challenge_response,
                uuid,
                now,
                Ok(store@.tokens.last()),
            ));
        }
    }
    token_reply(minted)
}

} // verus!
