use items_service::item::Item;
use items_service::json::{decimal_string, encode_error, encode_item, encode_items, json_string_of};
use items_service::route::{match_route, parse_id, Route};

#[test]
fn decimal_renders_exact_digits() {
    assert_eq!(decimal_string(0), "0");
    assert_eq!(decimal_string(7), "7");
    assert_eq!(decimal_string(10), "10");
    assert_eq!(decimal_string(90210), "90210");
    assert_eq!(decimal_string(u64::MAX), "18446744073709551615");
}

#[test]
fn string_literals_escape_special_characters() {
    assert_eq!(json_string_of("plain"), "\"plain\"");
    assert_eq!(json_string_of(""), "\"\"");
    assert_eq!(json_string_of("a\"b"), "\"a\\\"b\"");
    assert_eq!(json_string_of("a\\b"), "\"a\\\\b\"");
    assert_eq!(json_string_of("a\nb\rc\td"), "\"a\\nb\\rc\\td\"");
}

#[test]
fn items_encode_as_json_objects() {
    let it = Item {
        id: 12,
        name: "say \"hi\"".to_string(),
        description: "line\nbreak".to_string(),
    };
    assert_eq!(
        encode_item(&it),
        "{\"id\":12,\"name\":\"say \\\"hi\\\"\",\"description\":\"line\\nbreak\"}"
    );
}

#[test]
fn item_arrays_encode_with_commas() {
    let items = vec![
        Item { id: 1, name: "a".to_string(), description: "x".to_string() },
        Item { id: 2, name: "b".to_string(), description: "y".to_string() },
    ];
    assert_eq!(
        encode_items(&items),
        "[{\"id\":1,\"name\":\"a\",\"description\":\"x\"},\
         {\"id\":2,\"name\":\"b\",\"description\":\"y\"}]"
    );
    let none: Vec<Item> = Vec::new();
    assert_eq!(encode_items(&none), "[]");
}

#[test]
fn error_envelope_encodes_message() {
    assert_eq!(encode_error("Item not found"), "{\"error\":\"Item not found\"}");
    assert_eq!(encode_error("so \"bad\""), "{\"error\":\"so \\\"bad\\\"\"}");
}

#[test]
fn identifier_segments_parse_exactly() {
    assert_eq!(parse_id("123"), Some(123));
    assert_eq!(parse_id("0"), Some(0));
    assert_eq!(parse_id("007"), Some(7));
    assert_eq!(parse_id("9223372036854775807"), Some(i64::MAX));
    assert_eq!(parse_id("9223372036854775808"), None);
    assert_eq!(parse_id("99999999999999999999999"), None);
    assert_eq!(parse_id(""), None);
    assert_eq!(parse_id("12a"), None);
    assert_eq!(parse_id("-5"), None);
    assert_eq!(parse_id(" 5"), None);
}

#[test]
fn routes_match_the_three_endpoints() {
    assert!(matches!(match_route("GET", "/items"), Route::ListItems));
    assert!(matches!(match_route("POST", "/items"), Route::CreateItem));
    assert!(matches!(match_route("GET", "/item/42"), Route::GetItem(42)));
    assert!(matches!(match_route("GET", "/item/abc"), Route::Unknown));
    assert!(matches!(match_route("GET", "/item/"), Route::Unknown));
    assert!(matches!(match_route("DELETE", "/items"), Route::Unknown));
    assert!(matches!(match_route("POST", "/item/1"), Route::Unknown));
    assert!(matches!(match_route("GET", "/itemsy"), Route::Unknown));
    assert!(matches!(match_route("get", "/items"), Route::Unknown));
}
