use users_service::error::AppError;
use users_service::handlers;
use users_service::store::UserStore;
use users_service::user::CreateUser;

#[test]
fn root_greeting() {
    assert_eq!(handlers::root(), "Hello, users!");
}

#[test]
fn round_trip_create_then_get() {
    let mut store = UserStore::new();
    let created = store.create_user("Ada".to_string(), "ada@example.com".to_string());
    assert_eq!(created.id, 1);
    let found = store.get_user_by_id(created.id).expect("created user must be found");
    assert_eq!(found.id, created.id);
    assert_eq!(found.name, "Ada");
    assert_eq!(found.email, "ada@example.com");
}

#[test]
fn absent_id_is_repeatable() {
    let mut store = UserStore::new();
    assert!(store.get_user_by_id(999).is_none());
    assert!(store.get_user_by_id(999).is_none());
    store.create_user("Ada".to_string(), "ada@example.com".to_string());
    assert!(store.get_user_by_id(999).is_none());
    assert!(store.get_user_by_id(999).is_none());
}

#[test]
fn delete_removes_exactly_one() {
    let mut store = UserStore::new();
    let created = store.create_user("Ada".to_string(), "ada@example.com".to_string());
    let keeper = store.create_user("Grace".to_string(), "grace@example.com".to_string());
    assert_eq!(store.delete_user(created.id), 1);
    assert!(store.get_user_by_id(created.id).is_none());
    assert_eq!(store.delete_user(created.id), 0);
    assert!(store.get_user_by_id(keeper.id).is_some());
}

#[test]
fn list_reflects_creates() {
    let mut store = UserStore::new();
    assert_eq!(store.list_users().len(), 0);
    let mut created = Vec::new();
    for i in 0..3 {
        let name = format!("user{}", i);
        let email = format!("user{}@example.com", i);
        created.push(store.create_user(name, email));
    }
    let listed = store.list_users();
    assert_eq!(listed.len(), 3);
    for c in &created {
        assert!(listed.iter().any(|u| u.id == c.id && u.name == c.name && u.email == c.email));
    }
}

#[test]
fn scenario_create_ada() {
    let mut store = UserStore::new();
    let payload = CreateUser { name: "Ada".to_string(), email: "ada@example.com".to_string() };
    let created = store.create_user(payload.name.clone(), payload.email.clone());
    let response = handlers::create_user(payload, Ok(created.id));
    assert_eq!(response.status, 200);
    assert_eq!(response.body, "{\"id\":1,\"name\":\"Ada\",\"email\":\"ada@example.com\"}");
}

#[test]
fn scenario_get_missing_user() {
    let store = UserStore::new();
    let response = handlers::get_user_by_id(Ok(store.get_user_by_id(999)));
    assert_eq!(response.status, 404);
    assert_eq!(response.body, "{\"Error\":\"User not found\"}");
}

#[test]
fn scenario_delete_then_get() {
    let mut store = UserStore::new();
    let created = store.create_user("Ada".to_string(), "ada@example.com".to_string());
    assert_eq!(created.id, 1);
    let affected = store.delete_user(1);
    let response = handlers::delete_user(Ok(affected));
    assert_eq!(response.status, 204);
    assert_eq!(response.body, "");
    let after = handlers::get_user_by_id(Ok(store.get_user_by_id(1)));
    assert_eq!(after.status, 404);
    assert_eq!(after.body, "{\"Error\":\"User not found\"}");
}

#[test]
fn fetched_user_serves_200_with_its_json() {
    let mut store = UserStore::new();
    let created = store.create_user("Ada".to_string(), "ada@example.com".to_string());
    let response = handlers::get_user_by_id(Ok(store.get_user_by_id(created.id)));
    assert_eq!(response.status, 200);
    assert_eq!(response.body, "{\"id\":1,\"name\":\"Ada\",\"email\":\"ada@example.com\"}");
}

#[test]
fn delete_of_missing_user_serves_404() {
    let mut store = UserStore::new();
    let affected = store.delete_user(7);
    let response = handlers::delete_user(Ok(affected));
    assert_eq!(response.status, 404);
    assert_eq!(response.body, "{\"Error\":\"User not found\"}");
}

#[test]
fn database_failure_maps_to_500() {
    let body = "{\"Error\":\"Database error\"}";
    let listing = handlers::get_users(Err("connection reset".to_string()));
    assert_eq!(listing.status, 500);
    assert_eq!(listing.body, body);
    let fetch = handlers::get_user_by_id(Err("connection reset".to_string()));
    assert_eq!(fetch.status, 500);
    assert_eq!(fetch.body, body);
    let payload = CreateUser { name: "Ada".to_string(), email: "ada@example.com".to_string() };
    let create = handlers::create_user(payload, Err("connection reset".to_string()));
    assert_eq!(create.status, 500);
    assert_eq!(create.body, body);
    let delete = handlers::delete_user(Err("connection reset".to_string()));
    assert_eq!(delete.status, 500);
    assert_eq!(delete.body, body);
}

#[test]
fn error_translator_is_total() {
    let not_found = AppError::NotFound.into_response();
    assert_eq!(not_found.status, 404);
    assert_eq!(not_found.body, "{\"Error\":\"User not found\"}");
    let failure = AppError::DatabaseError("disk full".to_string());
    assert_eq!(failure.cause().map(|c| c.as_str()), Some("disk full"));
    let response = failure.into_response();
    assert_eq!(response.status, 500);
    assert_eq!(response.body, "{\"Error\":\"Database error\"}");
}
