use cargobike_share_backend::database::models::{
    Bike, InsertRent, InsertRentDetail, Rent, RentDetail, Token, TokenChallenge,
};
use cargobike_share_backend::database::store::{append_row, is_ascending, next_id, Store, StoreError};

#[test]
fn a_new_store_is_empty_and_consistent() {
    let store = Store::new();

    assert!(store.is_consistent());
    assert!(store.bikes.is_empty());
    assert!(store.tokens.is_empty());
    assert!(store.rents.is_empty());
    assert!(store.rent_details.is_empty());
    assert!(store.supporters.is_empty());
}

#[test]
fn the_store_hands_out_keys_from_one_upwards() {
    let mut store = Store::new();

    assert_eq!(store.insert_bike(), Ok(Bike { id: 1 }));
    assert_eq!(store.insert_bike(), Ok(Bike { id: 2 }));
    assert_eq!(store.insert_token_challenge(), Ok(TokenChallenge { id: 1 }));
    assert_eq!(next_id(&store.bikes), Some(3));
    assert_eq!(next_id(&store.rents), Some(1));

    append_row(&mut store.bikes, Bike { id: 10 }).unwrap();
    assert_eq!(store.insert_bike(), Ok(Bike { id: 11 }));
    assert!(store.is_consistent());
}

#[test]
fn the_store_stops_at_the_last_key() {
    let mut store = Store::new();
    append_row(&mut store.bikes, Bike { id: i32::MAX }).unwrap();

    assert_eq!(next_id(&store.bikes), None);
    assert_eq!(store.insert_bike(), Err(StoreError::KeysExhausted));
    assert_eq!(store.bikes.len(), 1);
    assert_eq!(StoreError::KeysExhausted.message(), "the table has no key left for a new row");
}

#[test]
fn insert_token_refuses_a_second_token_with_the_same_identifier() {
    let mut store = Store::new();

    assert_eq!(store.insert_token(5, 100), Ok(Token { id: 1, uuid: 5, created_at: 100 }));
    assert_eq!(store.insert_token(5, 200), Err(StoreError::DuplicateUuid));
    assert_eq!(store.insert_token(6, 200), Ok(Token { id: 2, uuid: 6, created_at: 200 }));
    assert_eq!(store.find_token(6), Some(Token { id: 2, uuid: 6, created_at: 200 }));
    assert_eq!(store.find_token(7), None);
    assert_eq!(
        StoreError::DuplicateUuid.message(),
        "a token with this identifier exists already"
    );
}

#[test]
fn insert_rent_adds_an_active_rent() {
    let mut store = Store::new();

    let rent = store
        .insert_rent(
            InsertRent { token_id: 3, bike_id: 4, start_timestamp: 10, end_timestamp: 20 },
            7,
        )
        .unwrap();
    let detail = store
        .insert_rent_detail(InsertRentDetail { rent_id: rent.id, encrypted_details: "x".to_string() })
        .unwrap();

    assert_eq!(
        rent,
        Rent {
            id: 1,
            token_id: 3,
            bike_id: 4,
            created_at: 7,
            start_timestamp: 10,
            end_timestamp: 20,
            revocation_timestamp: None,
        }
    );
    assert_eq!(detail, RentDetail { id: 1, rent_id: Some(1), encrypted_details: "x".to_string() });
    assert_eq!(store.rents, vec![rent]);
    assert_eq!(store.rent_details, vec![detail]);
}

#[test]
fn is_consistent_finds_keys_out_of_order_and_shared_identifiers() {
    let mut store = Store::new();
    store.bikes.push(Bike { id: 2 });
    store.bikes.push(Bike { id: 2 });
    assert!(!store.is_consistent());
    assert!(!is_ascending(&store.bikes));

    let mut store = Store::new();
    store.bikes.push(Bike { id: 1 });
    store.bikes.push(Bike { id: 3 });
    store.bikes.push(Bike { id: 2 });
    assert!(!store.is_consistent());

    let mut store = Store::new();
    store.tokens.push(Token { id: 1, uuid: 9, created_at: 0 });
    store.tokens.push(Token { id: 2, uuid: 8, created_at: 0 });
    store.tokens.push(Token { id: 3, uuid: 9, created_at: 0 });
    assert!(is_ascending(&store.tokens));
    assert!(!store.has_distinct_uuids());
    assert!(!store.is_consistent());

    store.tokens[2].uuid = 7;
    assert!(store.has_distinct_uuids());
    assert!(store.is_consistent());
}
