//! The token ledger: which challenge a client is asked, and when an answer
//! earns a token.
//!
//! An answer is compared with the stored hash as it stands; nothing is hashed
//! here. A token is minted for every correct answer, with an identifier that
//! no earlier token carries.

use vstd::prelude::*;
use crate::bindings::{current_micros, random_below, random_uuid};
use crate::database::models::{
    ChallengeResponse, Timestamp, Token, TokenChallengeTranslatable, Uuid,
};
use crate::database::selection::{lemma_filter_keeps_rows, lemma_filter_next};
use crate::database::store::{
    next_key, uuid_known, Store, Tables, DUPLICATE_UUID, KEYS_EXHAUSTED,
};
use crate::routes::errors::{ChallengeError, RECORD_NOT_FOUND};

verus! {

/// What a client reads when its answer is not the challenge's answer.
pub const CHALLENGE_RESPONSE_NOT_VALID: &'static str = "Challenge response is not valid";

/// The test that selects the questions of a locale.
pub open spec fn locale_test(locale: Seq<char>) -> spec_fn(TokenChallengeTranslatable) -> bool {
    |row: TokenChallengeTranslatable| row.locale@ == locale
}

/// The questions of a locale, in table order.
pub open spec fn challenges_in_locale(
    rows: Seq<TokenChallengeTranslatable>,
    locale: Seq<char>,
) -> Seq<TokenChallengeTranslatable> {
    rows.filter(locale_test(locale))
}

/// The row belongs to the challenge that the response names and stores the
/// hash that the response claims.
pub open spec fn answers(row: TokenChallengeTranslatable, response: ChallengeResponse) -> bool {
    row.token_challenge_id == response.token_challenge_id && row.answer_hash@
        == response.answer_hash@
}

/// Some localisation of the challenge stores the claimed hash.
pub open spec fn is_answered(
    rows: Seq<TokenChallengeTranslatable>,
    response: ChallengeResponse,
) -> bool {
    exists|k: int| 0 <= k < rows.len() && answers(rows[k], response)
}

/// Why no token is minted.
pub enum MintRefusal {
    /// No localisation of the challenge stores the claimed hash.
    WrongAnswer,
    /// A token carries the proposed identifier already.
    DuplicateUuid,
    /// The token table has no key left.
    KeysExhausted,
}

/// The reason for which no token is minted on the given tables, if none is.
/// The answer is looked at first, then the identifier, then the keys.
pub open spec fn mint_refusal(tables: Tables, response: ChallengeResponse, uuid: Uuid) -> Option<
    MintRefusal,
> {
    if !is_answered(tables.token_challenge_translatables, response) {
        Some(MintRefusal::WrongAnswer)
    } else if uuid_known(tables.tokens, uuid) {
        Some(MintRefusal::DuplicateUuid)
    } else if next_key(tables.tokens) > i32::MAX {
        Some(MintRefusal::KeysExhausted)
    } else {
        None
    }
}

/// The token that is minted with the identifier at the moment `now`.
pub open spec fn minted_token(tables: Tables, uuid: Uuid, now: Timestamp) -> Token {
    Token { id: next_key(tables.tokens) as i32, uuid, created_at: now }
}

/// The tables after a token is minted: one more token, and nothing else
/// changed.
pub open spec fn minted(tables: Tables, uuid: Uuid, now: Timestamp) -> Tables {
    Tables { tokens: tables.tokens.push(minted_token(tables, uuid, now)), ..tables }
}

/// The error reports the refusal to mint.
pub open spec fn reports_mint_refusal(error: ChallengeError, refusal: MintRefusal) -> bool {
    match refusal {
        MintRefusal::WrongAnswer => error matches ChallengeError::Validation(text) && text@
            == CHALLENGE_RESPONSE_NOT_VALID@,
        MintRefusal::DuplicateUuid => error matches ChallengeError::Database(text) && text@
            == DUPLICATE_UUID@,
        MintRefusal::KeysExhausted => error matches ChallengeError::Database(text) && text@
            == KEYS_EXHAUSTED@,
    }
}

/// What minting with the identifier at the moment `now` leaves behind: the
/// outcome, and the tables `after` it, for the tables `before` it.
pub open spec fn mint_result(
    before: Tables,
    after: Tables,
    response: ChallengeResponse,
    uuid: Uuid,
    now: Timestamp,
    outcome: Result<Token, ChallengeError>,
) -> bool {
    match outcome {
        Ok(token) => {
            &&& mint_refusal(before, response, uuid) is None
            &&& token == minted_token(before, uuid, now)
            &&& after == minted(before, uuid, now)
        },
        Err(error) => {
            &&& mint_refusal(before, response, uuid) is Some
            &&& reports_mint_refusal(error, mint_refusal(before, response, uuid).unwrap())
            &&& after == before
        },
    }
}

/// The questions that the store holds in the locale, in table order.
pub fn challenges_for_locale(store: &Store, locale: &String) -> (found: Vec<
    TokenChallengeTranslatable,
>)
    ensures
        found@ == challenges_in_locale(store@.token_challenge_translatables, locale@),
{
    let mut found: Vec<TokenChallengeTranslatable> = Vec::new();
    let mut k: usize = 0;
    while k < store.token_challenge_translatables.len()
        invariant
            k <= store.token_challenge_translatables.len(),
            found@ == challenges_in_locale(
                store.token_challenge_translatables@.take(k as int),
                locale@,
            ),
        decreases store.token_challenge_translatables.len() - k,
    {
        proof {
            lemma_filter_next(store.token_challenge_translatables@, locale_test(locale@), k as int);
        }
        if store.token_challenge_translatables[k].locale == *locale {
            found.push(store.token_challenge_translatables[k].clone());
        }
        k += 1;
    }
    proof {
        assert(store.token_challenge_translatables@.take(k as int)
            =~= store.token_challenge_translatables@);
    }
    found
}

/// The question at place `draw` among those of the locale, counted from
/// zero in table order; not found where the locale has no such place.
pub fn nth_challenge(store: &Store, locale: &String, draw: usize) -> (outcome: Result<
    TokenChallengeTranslatable,
    ChallengeError,
>)
    ensures
        outcome is Ok <==> draw < challenges_in_locale(
            store@.token_challenge_translatables,
            locale@,
        ).len(),
        outcome matches Ok(row) ==> row == challenges_in_locale(
            store@.token_challenge_translatables,
            locale@,
        )[draw as int],
        outcome matches Err(error) ==> error matches ChallengeError::NotFound(text) && text@
            == RECORD_NOT_FOUND@,
{
    let found = challenges_for_locale(store, locale);
    if draw < found.len() {
        Ok(found[draw].clone())
    } else {
        Err(ChallengeError::NotFound(RECORD_NOT_FOUND.to_owned()))
    }
}

/// One of the questions of the locale, each as likely as the other; not
/// found where the locale has none. Whatever is drawn, the question is one
/// of the locale's.
pub fn get_random_challenge(store: &Store, locale: &String) -> (outcome: Result<
    TokenChallengeTranslatable,
    ChallengeError,
>)
    ensures
        outcome is Ok <==> challenges_in_locale(
            store@.token_challenge_translatables,
            locale@,
        ).len() > 0,
        outcome matches Ok(row) ==> row.locale@ == locale@ && challenges_in_locale(
            store@.token_challenge_translatables,
            locale@,
        ).contains(row) && store@.token_challenge_translatables.contains(row),
        outcome matches Err(error) ==> error matches ChallengeError::NotFound(text) && text@
            == RECORD_NOT_FOUND@,
{
    let found = challenges_for_locale(store, locale);
    if found.len() == 0 {
        return Err(ChallengeError::NotFound(RECORD_NOT_FOUND.to_owned()));
    }
    let draw = random_below(found.len());
    proof {
        let rows = store@.token_challenge_translatables;
        rows.lemma_filter_pred(locale_test(locale@), draw as int);
        lemma_filter_keeps_rows(rows, locale_test(locale@), draw as int);
    }
    Ok(found[draw].clone())
}

/// Whether some localisation of the challenge stores the claimed hash.
pub fn is_correct_answer(store: &Store, response: &ChallengeResponse) -> (correct: bool)
    ensures
        correct == is_answered(store@.token_challenge_translatables, *response),
{
    let mut k: usize = 0;
    while k < store.token_challenge_translatables.len()
        invariant
            k <= store.token_challenge_translatables.len(),
            forall|j: int|
                0 <= j < k ==> !answers(store.token_challenge_translatables@[j], *response),
        decreases store.token_challenge_translatables.len() - k,
    {
        let row = &store.token_challenge_translatables[k];
        if row.token_challenge_id == response.token_challenge_id && row.answer_hash
            == response.answer_hash {
            assert(answers(store.token_challenge_translatables@[k as int], *response));
            return true;
        }
        k += 1;
    }
    false
}

/// Checks the answer and, where it is correct, mints a token with the
/// proposed identifier at the moment `now`.
///
/// A wrong answer is refused as not valid and mints nothing. An identifier
/// that a token carries already, or a token table without a key left, is
/// refused by the store. A minted token's identifier differs from that of
/// every token minted before.
pub fn mint_token(
    store: &mut Store,
    response: &ChallengeResponse,
    uuid: Uuid,
    now: Timestamp,
) -> (outcome: Result<Token, ChallengeError>)
    requires
        old(store).wf(),
    ensures
        final(store).wf(),
        mint_result(old(store)@, final(store)@, *response, uuid, now, outcome),
        outcome matches Ok(token) ==> forall|k: int|
            0 <= k < old(store)@.tokens.len() ==> old(store)@.tokens[k].uuid != token.uuid,
{
    if !is_correct_answer(store, response) {
        return Err(ChallengeError::Validation(CHALLENGE_RESPONSE_NOT_VALID.to_owned()));
    }
    match store.insert_token(uuid, now) {
        Ok(token) => Ok(token),
        Err(refusal) => Err(ChallengeError::Database(refusal.message())),
    }
}

/// Checks the answer and, where it is correct, mints a token with a random
/// identifier at the present moment.
///
/// A wrong answer is refused as not valid and mints nothing, whatever was
/// drawn. For a correct answer the outcome is that of [`mint_token`] for the
/// identifier drawn and the present moment.
pub fn test_challenge(store: &mut Store, response: &ChallengeResponse) -> (outcome: Result<
    Token,
    ChallengeError,
>)
    requires
        old(store).wf(),
    ensures
        final(store).wf(),
        exists|uuid: Uuid, now: Timestamp| #[trigger]
            mint_result(old(store)@, final(store)@, *response, uuid, now, outcome),
        !is_answered(old(store)@.token_challenge_translatables, *response) ==> final(store)@
            == old(store)@ && (outcome matches Err(ChallengeError::Validation(text)) && text@
            == CHALLENGE_RESPONSE_NOT_VALID@),
        outcome matches Ok(token) ==> forall|k: int|
            0 <= k < old(store)@.tokens.len() ==> old(store)@.tokens[k].uuid != token.uuid,
{
    let uuid = random_uuid();
    let now = current_micros();
    mint_token(store, response, uuid, now)
}

/// Two tokens minted one after the other carry different identifiers.
pub proof fn lemma_minted_tokens_differ(
    tables: Tables,
    first: ChallengeResponse,
    first_uuid: Uuid,
    first_now: Timestamp,
    second: ChallengeResponse,
    second_uuid: Uuid,
)
    requires
        mint_refusal(tables, first, first_uuid) is None,
        mint_refusal(minted(tables, first_uuid, first_now), second, second_uuid) is None,
    ensures
        first_uuid != second_uuid,
{
    let after = minted(tables, first_uuid, first_now);
    assert(after.tokens[tables.tokens.len() as int].uuid == first_uuid);
}

/// A wrong answer mints nothing, whichever identifier is proposed.
pub proof fn lemma_wrong_answer_mints_nothing(
    before: Tables,
    after: Tables,
    response: ChallengeResponse,
    uuid: Uuid,
    now: Timestamp,
    outcome: Result<Token, ChallengeError>,
)
    requires
        mint_result(before, after, response, uuid, now, outcome),
        !is_answered(before.token_challenge_translatables, response),
    ensures
        after == before,
        outcome matches Err(ChallengeError::Validation(text)) && text@
            == CHALLENGE_RESPONSE_NOT_VALID@,
{
}

} // verus!
