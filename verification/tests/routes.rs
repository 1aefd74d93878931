use cargobike_share_backend::routes::index;
use serde_json::Value;

#[test]
fn test_index() {
    let info = index();

    let mut body = serde_json::Map::new();
    body.insert("name".to_string(), Value::String(info.name.clone()));
    body.insert("version".to_string(), Value::String(info.version.clone()));

    assert_eq!(
        Value::Object(body).to_string(),
        format!("{{\"name\":\"{}\",\"version\":\"{}\"}}", "cargobike_share_backend", "0.1.0")
    );
}
