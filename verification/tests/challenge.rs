use cargobike_share_backend::database::daos::challenge;
use cargobike_share_backend::database::models::{
    ChallengeResponse, InsertTokenChallengeTranslatable, Token, TokenChallengeTranslatable,
};
use cargobike_share_backend::database::store::Store;
use cargobike_share_backend::routes;
use cargobike_share_backend::routes::challenge::ChallengeQuestion;
use cargobike_share_backend::routes::errors::ChallengeError;
use cargobike_share_backend::routes::TokenReply;
use serde_json::Value;

fn json_question(question: &ChallengeQuestion) -> String {
    let mut body = serde_json::Map::new();
    body.insert("question".to_string(), Value::String(question.question.clone()));
    body.insert("token_challenge_id".to_string(), Value::from(question.token_challenge_id));
    body.insert(
        "url".to_string(),
        match &question.url {
            Some(url) => Value::String(url.clone()),
            None => Value::Null,
        },
    );
    Value::Object(body).to_string()
}

fn json_token(reply: &TokenReply) -> String {
    let mut body = serde_json::Map::new();
    body.insert("token".to_string(), Value::String(reply.token.clone()));
    Value::Object(body).to_string()
}

fn insert_question(store: &mut Store, challenge_id: i32, locale: &str, question: &str, hash: &str) {
    store
        .insert_token_challenge_translatable(InsertTokenChallengeTranslatable {
            token_challenge_id: challenge_id,
            locale: locale.to_string(),
            question: question.to_string(),
            answer_hash: hash.to_string(),
            url: None,
        })
        .expect("Could not insert token challenge translatables.");
}

#[test]
fn challenge_test_test_challenge_succeeds() {
    let mut store = Store::new();
    let answer_hash_value = "123".to_string();
    let token_challenge = store.insert_token_challenge().unwrap();
    let token_challenge_translatable = InsertTokenChallengeTranslatable {
        token_challenge_id: token_challenge.id,
        locale: "de-DE".to_string(),
        question: "".to_string(),
        answer_hash: answer_hash_value.to_string(),
        url: None,
    };
    store
        .insert_token_challenge_translatable(token_challenge_translatable)
        .expect("Could not insert token challenge translatables.");

    let input = ChallengeResponse {
        token_challenge_id: token_challenge.id,
        answer_hash: answer_hash_value.to_string(),
    };

    let actual = challenge::test_challenge(&mut store, &input);

    assert_eq!(actual.is_ok(), true);
}

#[test]
fn challenge_test_test_challenge_fails() {
    let mut store = Store::new();
    let answer_hash_value = "123".to_string();
    let token_challenge = store.insert_token_challenge().unwrap();
    let token_challenge_translatable = InsertTokenChallengeTranslatable {
        token_challenge_id: token_challenge.id,
        locale: "de-DE".to_string(),
        question: "".to_string(),
        answer_hash: "wrong".to_string(),
        url: None,
    };
    store
        .insert_token_challenge_translatable(token_challenge_translatable)
        .expect("Could not insert token challenge translatables.");

    let input = ChallengeResponse {
        token_challenge_id: token_challenge.id,
        answer_hash: answer_hash_value.to_string(),
    };

    let actual = challenge::test_challenge(&mut store, &input);

    assert_eq!(actual.is_ok(), false);
}

#[test]
fn test_get_random_challenge() {
    let drawn = Ok(TokenChallengeTranslatable {
        id: 1,
        token_challenge_id: 1,
        locale: "de-DE".to_string(),
        question: "The question".to_string(),
        answer_hash: "cryptic hash here".to_string(),
        url: None,
    });

    let reply = routes::challenge::question_reply(drawn).unwrap();

    assert_eq!(
        json_question(&reply),
        "{\"question\":\"The question\",\"token_challenge_id\":1,\"url\":null}".to_string()
    );

    let mut store = Store::new();
    let token_challenge = store.insert_token_challenge().unwrap();
    assert_eq!(token_challenge.id, 1);
    insert_question(&mut store, 1, "de-DE", "The question", "cryptic hash here");

    let reply = routes::challenge::get_random_challenge(&store, "de-DE").unwrap();

    assert_eq!(
        json_question(&reply),
        "{\"question\":\"The question\",\"token_challenge_id\":1,\"url\":null}".to_string()
    );
}

#[test]
fn test_test_challenge() {
    let uuid = "00a791f1-68b8-457c-82d9-a060f48efbae";
    let uuid = uuid::Uuid::parse_str(uuid).unwrap();
    let date = chrono::NaiveDate::from_ymd_opt(2021, 4, 18).unwrap().and_hms_opt(0, 0, 0).unwrap();

    let minted = Ok(Token {
        id: 1,
        uuid: uuid.as_u128(),
        created_at: date.and_utc().timestamp_micros(),
    });

    let reply = routes::challenge::token_reply(minted).unwrap();

    assert_eq!(
        json_token(&reply),
        format!("{{\"token\":\"{}\"}}", "00a791f1-68b8-457c-82d9-a060f48efbae")
    );
}

#[test]
fn mint_token_adds_the_token_with_the_next_key() {
    let mut store = Store::new();
    insert_question(&mut store, 4, "de-DE", "Wie viele Räder?", "abc");
    store.insert_token(17, 5).unwrap();
    let input = ChallengeResponse { token_challenge_id: 4, answer_hash: "abc".to_string() };

    let token = challenge::mint_token(&mut store, &input, 99, 1_000_000).unwrap();

    assert_eq!(token, Token { id: 2, uuid: 99, created_at: 1_000_000 });
    assert_eq!(
        store.tokens,
        vec![Token { id: 1, uuid: 17, created_at: 5 }, Token { id: 2, uuid: 99, created_at: 1_000_000 }]
    );
}

#[test]
fn mint_token_compares_the_hash_with_the_challenge_that_is_named() {
    let mut store = Store::new();
    insert_question(&mut store, 4, "de-DE", "Frage", "abc");
    insert_question(&mut store, 5, "de-DE", "Andere Frage", "xyz");
    insert_question(&mut store, 5, "en-GB", "Other question", "uvw");

    let other_challenge = ChallengeResponse { token_challenge_id: 5, answer_hash: "abc".to_string() };
    let other_locale = ChallengeResponse { token_challenge_id: 5, answer_hash: "uvw".to_string() };
    let upper_case = ChallengeResponse { token_challenge_id: 4, answer_hash: "ABC".to_string() };

    assert_eq!(
        challenge::mint_token(&mut store, &other_challenge, 1, 0),
        Err(ChallengeError::Validation("Challenge response is not valid".to_string()))
    );
    assert_eq!(
        challenge::mint_token(&mut store, &upper_case, 1, 0),
        Err(ChallengeError::Validation("Challenge response is not valid".to_string()))
    );
    assert!(store.tokens.is_empty());
    assert!(challenge::is_correct_answer(&store, &other_locale));
    assert_eq!(
        challenge::mint_token(&mut store, &other_locale, 1, 0),
        Ok(Token { id: 1, uuid: 1, created_at: 0 })
    );
}

#[test]
fn mint_token_refuses_an_identifier_that_is_taken() {
    let mut store = Store::new();
    insert_question(&mut store, 4, "de-DE", "Frage", "abc");
    let input = ChallengeResponse { token_challenge_id: 4, answer_hash: "abc".to_string() };
    challenge::mint_token(&mut store, &input, 99, 1).unwrap();

    let again = challenge::mint_token(&mut store, &input, 99, 2);

    assert_eq!(
        again,
        Err(ChallengeError::Database("a token with this identifier exists already".to_string()))
    );
    assert_eq!(store.tokens.len(), 1);
}

#[test]
fn mint_token_stops_when_the_keys_are_exhausted() {
    let mut store = Store::new();
    insert_question(&mut store, 4, "de-DE", "Frage", "abc");
    store.tokens.push(Token { id: i32::MAX, uuid: 1, created_at: 0 });
    let input = ChallengeResponse { token_challenge_id: 4, answer_hash: "abc".to_string() };

    let outcome = challenge::mint_token(&mut store, &input, 2, 0);

    assert_eq!(
        outcome,
        Err(ChallengeError::Database("the table has no key left for a new row".to_string()))
    );
    assert_eq!(store.tokens.len(), 1);
}

#[test]
fn test_challenge_mints_tokens_with_different_identifiers() {
    let mut store = Store::new();
    insert_question(&mut store, 4, "de-DE", "Frage", "abc");
    let input = ChallengeResponse { token_challenge_id: 4, answer_hash: "abc".to_string() };

    let first = challenge::test_challenge(&mut store, &input).unwrap();
    let second = challenge::test_challenge(&mut store, &input).unwrap();

    assert_ne!(first.uuid, second.uuid);
    assert_eq!((first.id, second.id), (1, 2));
    assert_eq!(store.tokens, vec![first, second]);
}

#[test]
fn test_challenge_route_replies_with_the_minted_identifier() {
    let mut store = Store::new();
    insert_question(&mut store, 4, "de-DE", "Frage", "abc");
    let input = ChallengeResponse { token_challenge_id: 4, answer_hash: "abc".to_string() };

    let reply = routes::challenge::test_challenge(&mut store, &input).unwrap();

    assert_eq!(store.tokens.len(), 1);
    assert_eq!(reply.token, uuid::Uuid::from_u128(store.tokens[0].uuid).to_string());
    assert_eq!(reply.token.len(), 36);

    let wrong = ChallengeResponse { token_challenge_id: 4, answer_hash: "abd".to_string() };
    let refused = routes::challenge::test_challenge(&mut store, &wrong).unwrap_err();

    assert_eq!(refused, ChallengeError::Validation("Challenge response is not valid".to_string()));
    assert_eq!(refused.status(), 400);
    assert_eq!(refused.message(), "Challenge response is not valid");
    assert_eq!(store.tokens.len(), 1);
}

#[test]
fn token_reply_passes_an_error_on() {
    let refused = routes::challenge::token_reply(Err(ChallengeError::Database("down".to_string())));

    assert_eq!(refused, Err(ChallengeError::Database("down".to_string())));
}

#[test]
fn nth_challenge_counts_within_the_locale() {
    let mut store = Store::new();
    insert_question(&mut store, 1, "de-DE", "Eins", "a");
    insert_question(&mut store, 1, "en-GB", "One", "a");
    insert_question(&mut store, 2, "de-DE", "Zwei", "b");
    let locale = "de-DE".to_string();

    let found = challenge::challenges_for_locale(&store, &locale);
    let first = challenge::nth_challenge(&store, &locale, 0).unwrap();
    let second = challenge::nth_challenge(&store, &locale, 1).unwrap();
    let third = challenge::nth_challenge(&store, &locale, 2);

    assert_eq!(found.len(), 2);
    assert_eq!((first.id, first.question.as_str()), (1, "Eins"));
    assert_eq!((second.id, second.question.as_str()), (3, "Zwei"));
    assert_eq!(third, Err(ChallengeError::NotFound("Record not found".to_string())));
}

#[test]
fn get_random_challenge_reaches_every_question_of_the_locale() {
    let mut store = Store::new();
    insert_question(&mut store, 1, "de-DE", "Eins", "a");
    insert_question(&mut store, 1, "en-GB", "One", "a");
    insert_question(&mut store, 2, "de-DE", "Zwei", "b");
    let locale = "de-DE".to_string();

    let mut seen_first = false;
    let mut seen_second = false;
    for _ in 0..400 {
        let row = challenge::get_random_challenge(&store, &locale).unwrap();
        assert_eq!(row.locale, "de-DE");
        if row.question == "Eins" {
            seen_first = true;
        }
        if row.question == "Zwei" {
            seen_second = true;
        }
    }

    assert!(seen_first && seen_second);
}

#[test]
fn get_random_challenge_finds_nothing_in_an_unknown_locale() {
    let mut store = Store::new();
    insert_question(&mut store, 1, "de-DE", "Eins", "a");

    let dao = challenge::get_random_challenge(&store, &"fr-FR".to_string());
    let route = routes::challenge::get_random_challenge(&store, "fr-FR");

    assert_eq!(dao, Err(ChallengeError::NotFound("Record not found".to_string())));
    assert_eq!(route, Err(ChallengeError::NotFound("Record not found".to_string())));
}

#[test]
fn get_random_challenge_refuses_a_text_without_the_locale_pattern() {
    let mut store = Store::new();
    insert_question(&mut store, 1, "de", "Eins", "a");

    let reply = routes::challenge::get_random_challenge(&store, "de");

    assert_eq!(reply, Err(ChallengeError::Parse("No valid locale passed.".to_string())));
    assert!(routes::challenge::is_valid_locale("de-DE"));
    assert!(routes::challenge::is_valid_locale("xx_de-DE_yy"));
    assert!(!routes::challenge::is_valid_locale("de-D"));
    assert!(!routes::challenge::is_valid_locale("d-DE"));
    assert!(!routes::challenge::is_valid_locale("de DE"));
    assert!(!routes::challenge::is_valid_locale(""));
}
