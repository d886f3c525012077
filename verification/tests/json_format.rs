use users_service::handlers;
use users_service::json::{encode_user, encode_users};
use users_service::store::UserStore;
use users_service::user::User;

#[test]
fn encodes_user_object() {
    let u = User { id: 42, name: "Ada".to_string(), email: "ada@example.com".to_string() };
    assert_eq!(encode_user(&u), "{\"id\":42,\"name\":\"Ada\",\"email\":\"ada@example.com\"}");
}

#[test]
fn encodes_negative_and_boundary_ids() {
    let u = User { id: -5, name: "n".to_string(), email: "e".to_string() };
    assert_eq!(encode_user(&u), "{\"id\":-5,\"name\":\"n\",\"email\":\"e\"}");
    let min = User { id: i64::MIN, name: "n".to_string(), email: "e".to_string() };
    assert_eq!(
        encode_user(&min),
        "{\"id\":-9223372036854775808,\"name\":\"n\",\"email\":\"e\"}"
    );
    let max = User { id: i64::MAX, name: "n".to_string(), email: "e".to_string() };
    assert_eq!(encode_user(&max), "{\"id\":9223372036854775807,\"name\":\"n\",\"email\":\"e\"}");
}

#[test]
fn encodes_empty_listing() {
    let store = UserStore::new();
    let response = handlers::get_users(Ok(store.list_users()));
    assert_eq!(response.status, 200);
    assert_eq!(response.body, "[]");
}

#[test]
fn encodes_listing_in_row_order() {
    let mut store = UserStore::new();
    store.create_user("Ada".to_string(), "ada@example.com".to_string());
    store.create_user("Grace".to_string(), "grace@example.com".to_string());
    let response = handlers::get_users(Ok(store.list_users()));
    assert_eq!(response.status, 200);
    assert_eq!(
        response.body,
        "[{\"id\":1,\"name\":\"Ada\",\"email\":\"ada@example.com\"},{\"id\":2,\"name\":\"Grace\",\"email\":\"grace@example.com\"}]"
    );
}

#[test]
fn escapes_special_characters() {
    let u = User {
        id: 1,
        name: "a\"b\\c".to_string(),
        email: "line1\nline2\t\r\u{1}".to_string(),
    };
    assert_eq!(
        encode_user(&u),
        "{\"id\":1,\"name\":\"a\\\"b\\\\c\",\"email\":\"line1\\nline2\\t\\r\\u0001\"}"
    );
}

#[test]
fn encoded_json_parses_back() {
    let users = vec![
        User { id: 1, name: "Ada \"the first\"".to_string(), email: "a\\b@example.com".to_string() },
        User { id: -2, name: "tab\there".to_string(), email: "new\nline".to_string() },
        User { id: 3, name: "ctrl\u{2}char".to_string(), email: "plain@example.com".to_string() },
    ];
    let body = encode_users(&users);
    let parsed: serde_json::Value = serde_json::from_str(&body).expect("body must be valid JSON");
    let array = parsed.as_array().expect("body must be a JSON array");
    assert_eq!(array.len(), users.len());
    for (value, user) in array.iter().zip(users.iter()) {
        assert_eq!(value["id"].as_i64(), Some(user.id));
        assert_eq!(value["name"].as_str(), Some(user.name.as_str()));
        assert_eq!(value["email"].as_str(), Some(user.email.as_str()));
    }
}
