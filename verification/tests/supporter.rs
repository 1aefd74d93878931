use cargobike_share_backend::database::daos::supporter;
use cargobike_share_backend::database::models::{
    Supporter, SupporterTranslatable, SupporterType, SupporterWithTypeAndTranslatable,
};
use cargobike_share_backend::database::store::{append_row, Store, StoreError};
use cargobike_share_backend::routes;
use serde_json::Value;

fn json_optional_text(text: &Option<String>) -> String {
    match text {
        Some(text) => Value::String(text.clone()).to_string(),
        None => Value::Null.to_string(),
    }
}

fn json_optional_number(number: &Option<i16>) -> String {
    match number {
        Some(number) => Value::from(*number).to_string(),
        None => Value::Null.to_string(),
    }
}

fn json_supporter(row: &SupporterWithTypeAndTranslatable) -> String {
    format!(
        "{{\"id\":{},\"supporter_type_title\":{},\"locale\":{},\"title\":{},\"description\":{},\"url\":{},\"logo_url\":{},\"logo_width\":{},\"logo_height\":{},\"logo_alt_text\":{}}}",
        row.id,
        Value::String(row.supporter_type_title.clone()),
        Value::String(row.locale.clone()),
        Value::String(row.title.clone()),
        json_optional_text(&row.description),
        json_optional_text(&row.url),
        json_optional_text(&row.logo_url),
        json_optional_number(&row.logo_width),
        json_optional_number(&row.logo_height),
        json_optional_text(&row.logo_alt_text)
    )
}

fn json_supporters(rows: &Vec<SupporterWithTypeAndTranslatable>) -> String {
    let items: Vec<String> = rows.iter().map(json_supporter).collect();
    format!("[{}]", items.join(","))
}

fn plain_translatable(id: i32, supporter_id: i32, locale: &str, title: &str) -> SupporterTranslatable {
    SupporterTranslatable {
        id,
        supporter_id,
        locale: locale.to_string(),
        title: title.to_string(),
        description: None,
        url: None,
        logo_url: None,
        logo_width: None,
        logo_height: None,
        logo_alt_text: None,
    }
}

fn store_with_two_supporters() -> Store {
    let mut store = Store::new();
    append_row(&mut store.supporter_types, SupporterType { id: 1, title: "Hardware".to_string() })
        .unwrap();
    append_row(&mut store.supporter_types, SupporterType { id: 2, title: "Software".to_string() })
        .unwrap();
    append_row(&mut store.supporters, Supporter { id: 1, supporter_type_id: Some(1) }).unwrap();
    append_row(&mut store.supporters, Supporter { id: 2, supporter_type_id: Some(2) }).unwrap();
    append_row(&mut store.supporter_translatables, plain_translatable(1, 1, "de-DE", "Test"))
        .unwrap();
    append_row(
        &mut store.supporter_translatables,
        SupporterTranslatable {
            id: 2,
            supporter_id: 2,
            locale: "de-DE".to_string(),
            title: "Test 2".to_string(),
            description: Some("Test description".to_string()),
            url: Some("https://test.rs/2".to_string()),
            logo_url: Some("https//test.rs/test.png".to_string()),
            logo_width: Some(500),
            logo_height: Some(300),
            logo_alt_text: Some("alt".to_string()),
        },
    )
    .unwrap();
    store
}

#[test]
fn supporter_test_get_bikes() {
    let store = store_with_two_supporters();

    let data = routes::supporter::get_supporters(&store);

    assert_eq!(json_supporters(&data), "[{\"id\":1,\"supporter_type_title\":\"Hardware\",\"locale\":\"de-DE\",\"title\":\"Test\",\"description\":null,\"url\":null,\"logo_url\":null,\"logo_width\":null,\"logo_height\":null,\"logo_alt_text\":null},{\"id\":2,\"supporter_type_title\":\"Software\",\"locale\":\"de-DE\",\"title\":\"Test 2\",\"description\":\"Test description\",\"url\":\"https://test.rs/2\",\"logo_url\":\"https//test.rs/test.png\",\"logo_width\":500,\"logo_height\":300,\"logo_alt_text\":\"alt\"}]".to_string());
}

#[test]
fn supporter_test_get_bikes_with_empty_result() {
    let store = Store::new();

    let data = routes::supporter::get_supporters(&store);

    assert_eq!(json_supporters(&data), "[]".to_string());
}

#[test]
fn get_supporters_shows_each_localisation_of_a_supporter_with_a_kind() {
    let mut store = Store::new();
    append_row(&mut store.supporter_types, SupporterType { id: 3, title: "Hardware".to_string() })
        .unwrap();
    append_row(&mut store.supporter_types, SupporterType { id: 7, title: "Software".to_string() })
        .unwrap();
    append_row(&mut store.supporters, Supporter { id: 1, supporter_type_id: Some(7) }).unwrap();
    append_row(&mut store.supporters, Supporter { id: 2, supporter_type_id: None }).unwrap();
    append_row(&mut store.supporters, Supporter { id: 3, supporter_type_id: Some(3) }).unwrap();
    append_row(&mut store.supporters, Supporter { id: 4, supporter_type_id: Some(9) }).unwrap();
    append_row(&mut store.supporters, Supporter { id: 5, supporter_type_id: Some(3) }).unwrap();
    append_row(&mut store.supporter_translatables, plain_translatable(1, 3, "de-DE", "Drei")).unwrap();
    append_row(&mut store.supporter_translatables, plain_translatable(2, 1, "de-DE", "Eins")).unwrap();
    append_row(&mut store.supporter_translatables, plain_translatable(3, 2, "de-DE", "Zwei")).unwrap();
    append_row(&mut store.supporter_translatables, plain_translatable(4, 1, "en-GB", "One")).unwrap();
    append_row(&mut store.supporter_translatables, plain_translatable(5, 4, "en-GB", "Four")).unwrap();

    let data = supporter::get_supporters(&store);

    let shown: Vec<(i32, String, String, String)> = data
        .iter()
        .map(|row| (row.id, row.supporter_type_title.clone(), row.locale.clone(), row.title.clone()))
        .collect();
    assert_eq!(
        shown,
        vec![
            (1, "Software".to_string(), "de-DE".to_string(), "Eins".to_string()),
            (1, "Software".to_string(), "en-GB".to_string(), "One".to_string()),
            (3, "Hardware".to_string(), "de-DE".to_string(), "Drei".to_string()),
        ]
    );
}

#[test]
fn append_row_refuses_a_key_that_does_not_ascend() {
    let mut store = Store::new();
    append_row(&mut store.supporters, Supporter { id: 4, supporter_type_id: None }).unwrap();

    let same = append_row(&mut store.supporters, Supporter { id: 4, supporter_type_id: Some(1) });
    let lower = append_row(&mut store.supporters, Supporter { id: 2, supporter_type_id: None });

    assert_eq!(same, Err(StoreError::KeyNotAscending));
    assert_eq!(lower, Err(StoreError::KeyNotAscending));
    assert_eq!(store.supporters, vec![Supporter { id: 4, supporter_type_id: None }]);
    assert_eq!(
        StoreError::KeyNotAscending.message(),
        "the row's key does not follow the table's last key"
    );
}
