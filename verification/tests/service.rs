use items_service::error::AppError;
use items_service::http::{
    create_from_fields, error_response, get_response, handle_get_item, handle_list_items,
    handle_request, list_response,
};
use items_service::store::ItemStore;

#[test]
fn scenario_create_get_and_miss() {
    let mut store = ItemStore::new();
    let created = handle_request(
        &mut store,
        "POST",
        "/items",
        Some("widget".to_string()),
        Some("a thing".to_string()),
    );
    assert_eq!(created.status, 200);
    assert_eq!(
        created.body,
        "{\"id\":1,\"name\":\"widget\",\"description\":\"a thing\"}"
    );

    let fetched = handle_request(&mut store, "GET", "/item/1", None, None);
    assert_eq!(fetched.status, 200);
    assert_eq!(fetched.body, created.body);

    let missing = handle_request(&mut store, "GET", "/item/999", None, None);
    assert_eq!(missing.status, 404);
    assert_eq!(missing.body, "{\"error\":\"Item not found\"}");
}

#[test]
fn create_then_get_returns_equal_item() {
    let mut store = ItemStore::new();
    let created = store
        .create_item("alpha".to_string(), "first".to_string())
        .unwrap();
    let fetched = store.get_item(created.id).unwrap();
    assert_eq!(fetched.id, created.id);
    assert_eq!(fetched.name, created.name);
    assert_eq!(fetched.description, created.description);
}

#[test]
fn get_unassigned_id_is_not_found() {
    let mut store = ItemStore::new();
    store
        .create_item("alpha".to_string(), "first".to_string())
        .unwrap();
    for id in [0, 2, 7, i64::MAX, -1] {
        let r = store.get_item(id);
        assert!(matches!(r, Err(AppError::NotFound)));
        let resp = get_response(&store, id);
        assert_eq!(resp.status, 404);
        assert_eq!(resp.body, "{\"error\":\"Item not found\"}");
    }
}

#[test]
fn list_on_empty_store_is_ok_and_empty() {
    let store = ItemStore::new();
    let items = store.list_items();
    assert!(items.is_empty());
    let resp = list_response(&store);
    assert_eq!(resp.status, 200);
    assert_eq!(resp.body, "[]");
}

#[test]
fn list_after_n_creates_matches_each_call() {
    let mut store = ItemStore::new();
    let calls = [("a", "one"), ("b", "two"), ("c", "three")];
    for (name, description) in calls {
        store
            .create_item(name.to_string(), description.to_string())
            .unwrap();
    }
    let items = store.list_items();
    assert_eq!(items.len(), calls.len());
    for (k, (name, description)) in calls.iter().enumerate() {
        assert_eq!(items[k].id, k as i64 + 1);
        assert_eq!(items[k].name, *name);
        assert_eq!(items[k].description, *description);
    }
    let resp = list_response(&store);
    assert_eq!(resp.status, 200);
    assert_eq!(
        resp.body,
        "[{\"id\":1,\"name\":\"a\",\"description\":\"one\"},\
         {\"id\":2,\"name\":\"b\",\"description\":\"two\"},\
         {\"id\":3,\"name\":\"c\",\"description\":\"three\"}]"
    );
}

#[test]
fn creates_assign_distinct_ids() {
    let mut store = ItemStore::new();
    let mut ids = Vec::new();
    for _ in 0..50 {
        let it = store
            .create_item("same".to_string(), "same".to_string())
            .unwrap();
        assert!(!ids.contains(&it.id));
        ids.push(it.id);
    }
}

#[test]
fn create_with_missing_name_is_rejected() {
    let mut store = ItemStore::new();
    let resp = handle_request(&mut store, "POST", "/items", None, Some("d".to_string()));
    assert_eq!(resp.status, 422);
    assert_eq!(resp.body, "{\"error\":\"Missing field: name\"}");
    assert_eq!(store.len(), 0);
}

#[test]
fn create_with_missing_description_is_rejected() {
    let mut store = ItemStore::new();
    let resp = create_from_fields(&mut store, Some("n".to_string()), None);
    assert_eq!(resp.status, 422);
    assert_eq!(resp.body, "{\"error\":\"Missing field: description\"}");
    assert_eq!(store.len(), 0);
}

#[test]
fn create_accepts_empty_strings() {
    let mut store = ItemStore::new();
    let resp = create_from_fields(&mut store, Some(String::new()), Some(String::new()));
    assert_eq!(resp.status, 200);
    assert_eq!(resp.body, "{\"id\":1,\"name\":\"\",\"description\":\"\"}");
    assert_eq!(store.len(), 1);
}

#[test]
fn unknown_routes_answer_not_found() {
    let mut store = ItemStore::new();
    for (method, path) in [
        ("DELETE", "/items"),
        ("GET", "/item/"),
        ("GET", "/item/abc"),
        ("GET", "/other"),
        ("POST", "/item/1"),
    ] {
        let resp = handle_request(&mut store, method, path, None, None);
        assert_eq!(resp.status, 404);
        assert_eq!(resp.body, "{\"error\":\"Not found\"}");
    }
}

#[test]
fn error_responses_follow_the_status_table() {
    let cases: [(AppError, u16, &str); 6] = [
        (AppError::NotFound, 404, "{\"error\":\"Item not found\"}"),
        (AppError::Storage, 500, "{\"error\":\"Database error\"}"),
        (AppError::Connection, 500, "{\"error\":\"Database error\"}"),
        (AppError::Migration, 500, "{\"error\":\"Database error\"}"),
        (
            AppError::Internal("boom".to_string()),
            500,
            "{\"error\":\"boom\"}",
        ),
        (
            AppError::Validation("bad body".to_string()),
            422,
            "{\"error\":\"bad body\"}",
        ),
    ];
    for (e, status, body) in cases {
        let resp = error_response(&e);
        assert_eq!(resp.status, status);
        assert_eq!(resp.body, body);
    }
}

#[test]
fn storage_faults_surface_as_database_error() {
    let resp = handle_list_items(Err(AppError::Storage));
    assert_eq!(resp.status, 500);
    assert_eq!(resp.body, "{\"error\":\"Database error\"}");

    let resp = handle_get_item(Err(AppError::Storage));
    assert_eq!(resp.status, 500);
    assert_eq!(resp.body, "{\"error\":\"Database error\"}");
}

#[test]
fn zero_rows_surface_as_not_found() {
    let resp = handle_get_item(Ok(None));
    assert_eq!(resp.status, 404);
    assert_eq!(resp.body, "{\"error\":\"Item not found\"}");
}

#[test]
fn startup_errors_are_fatal_request_errors_are_not() {
    assert!(AppError::Connection.is_fatal());
    assert!(AppError::Migration.is_fatal());
    assert!(!AppError::Storage.is_fatal());
    assert!(!AppError::NotFound.is_fatal());
    assert!(!AppError::Internal("x".to_string()).is_fatal());
    assert!(!AppError::Validation("x".to_string()).is_fatal());
}
