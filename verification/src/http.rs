//! The HTTP surface: the response type, the translation of every outcome —
//! rows fetched, item inserted, fault raised — into a status and a JSON
//! body, the validation of the create payload, and the full pipeline from a
//! routed request to its response against the item store.

use vstd::prelude::*;
use crate::error::{status_of, message_of, AppError};
use crate::item::Item;
use crate::json::{encode_error, encode_item, encode_items, error_json, item_json, items_json};
use crate::route::{match_route, spec_route, Route};
use crate::store::{created_item, get_spec, ItemStore};

verus! {

/// An HTTP response: a status code and a JSON body.
pub struct Response {
    pub status: u16,
    pub body: String,
}

/// The mathematical value of a [`Response`].
pub ghost struct ResponseView {
    pub status: int,
    pub body: Seq<char>,
}

impl View for Response {
    type V = ResponseView;

    open spec fn view(&self) -> ResponseView {
        ResponseView { status: self.status as int, body: self.body@ }
    }
}

/// The response an error maps to: its status and its message inside the
/// uniform error envelope.
pub open spec fn error_response_spec(e: AppError) -> ResponseView {
    ResponseView { status: status_of(e), body: error_json(message_of(e)) }
}

/// Turns an error into its response: the status from the error-to-status
/// table and the message in the error envelope.
pub fn error_response(e: &AppError) -> (r: Response)
    ensures
        r@ == error_response_spec(*e),
{
    let msg = e.message();
    Response { status: e.status(), body: encode_error(msg.as_str()) }
}

/// Translates the outcome of fetching all items: the JSON array with
/// status 200, or the fault's error response.
pub fn handle_list_items(fetched: Result<Vec<Item>, AppError>) -> (r: Response)
    requires
        fetched matches Ok(v) ==> forall|k: int| 0 <= k < v@.len() ==> (#[trigger] v@[k].id) >= 0,
    ensures
        match fetched {
            Ok(v) => r@.status == 200 && r@.body == items_json(v.deep_view()),
            Err(e) => r@ == error_response_spec(e),
        },
{
    match fetched {
        Ok(v) => Response { status: 200, body: encode_items(&v) },
        Err(e) => error_response(&e),
    }
}

/// Translates the outcome of fetching one item by identifier: the item with
/// status 200, `NotFound` when no row matched, or the fault's error
/// response.
pub fn handle_get_item(fetched: Result<Option<Item>, AppError>) -> (r: Response)
    requires
        fetched matches Ok(Some(it)) ==> it.id >= 0,
    ensures
        match fetched {
            Ok(Some(it)) => r@.status == 200 && r@.body == item_json(it@),
            Ok(None) => r@ == error_response_spec(AppError::NotFound),
            Err(e) => r@ == error_response_spec(e),
        },
{
    match fetched {
        Ok(Some(it)) => Response { status: 200, body: encode_item(&it) },
        Ok(None) => error_response(&AppError::NotFound),
        Err(e) => error_response(&e),
    }
}

/// Translates the outcome of inserting an item: the fully populated item
/// with status 200, or the fault's error response.
pub fn handle_create_item(inserted: Result<Item, AppError>) -> (r: Response)
    requires
        inserted matches Ok(it) ==> it.id >= 0,
    ensures
        match inserted {
            Ok(it) => r@.status == 200 && r@.body == item_json(it@),
            Err(e) => r@ == error_response_spec(e),
        },
{
    match inserted {
        Ok(it) => Response { status: 200, body: encode_item(&it) },
        Err(e) => error_response(&e),
    }
}

/// Checks a decoded create payload: both fields must be present; empty
/// strings are accepted. Reports the first missing field.
pub fn validate_create(name: Option<String>, description: Option<String>) -> (r: Result<
    (String, String),
    AppError,
>)
    ensures
        name is None ==> (r matches Err(e) && e matches AppError::Validation(m) && m@
            == "Missing field: name"@),
        name is Some && description is None ==> (r matches Err(e) && e matches AppError::Validation(
            m,
        ) && m@ == "Missing field: description"@),
        name matches Some(n) ==> description matches Some(d) ==> (r matches Ok(p) && p.0 == n
            && p.1 == d),
{
    match (name, description) {
        (Some(n), Some(d)) => Ok((n, d)),
        (None, _) => Err(AppError::Validation(String::from_str("Missing field: name"))),
        (Some(_), None) => Err(
            AppError::Validation(String::from_str("Missing field: description")),
        ),
    }
}

/// The list endpoint against the store: always status 200 with the JSON
/// array of all items, the empty array included.
pub fn list_response(store: &ItemStore) -> (r: Response)
    requires
        store.wf(),
    ensures
        r@.status == 200,
        r@.body == items_json(store@),
{
    let items = store.list_items();
    proof {
        assert forall|k: int| 0 <= k < items@.len() implies (#[trigger] items@[k].id) >= 0 by {
            assert(items.deep_view()[k] == items@[k]@);
            assert(store@[k].id == k + 1);
        }
    }
    Response { status: 200, body: encode_items(&items) }
}

/// The get endpoint against the store: the item with status 200 when the
/// identifier was assigned, the `NotFound` response otherwise.
pub fn get_response(store: &ItemStore, id: i64) -> (r: Response)
    requires
        store.wf(),
    ensures
        match get_spec(store@, id as int) {
            Some(v) => r@.status == 200 && r@.body == item_json(v),
            None => r@ == error_response_spec(AppError::NotFound),
        },
{
    proof {
        if 1 <= id <= store@.len() {
            assert(store@[id - 1].id == id);
        }
    }
    handle_get_item(
        match store.get_item(id) {
            Ok(it) => Ok(Some(it)),
            Err(_) => Ok(None),
        },
    )
}

/// The create endpoint against the store: inserts and answers with the
/// fully populated item, or with the storage fault's response.
pub fn create_response(store: &mut ItemStore, name: String, description: String) -> (r: Response)
    requires
        old(store).wf(),
    ensures
        final(store).wf(),
        old(store)@.len() < i64::MAX ==> ({
            let it = created_item(old(store)@, name@, description@);
            r@.status == 200 && r@.body == item_json(it) && final(store)@ == old(store)@.push(it)
        }),
        old(store)@.len() == i64::MAX ==> (r@ == error_response_spec(AppError::Storage)
            && final(store)@ == old(store)@),
{
    handle_create_item(store.create_item(name, description))
}

/// The create endpoint from the decoded payload fields: validation first,
/// then the insert; a missing field is rejected before the store is
/// touched.
pub fn create_from_fields(
    store: &mut ItemStore,
    name: Option<String>,
    description: Option<String>,
) -> (r: Response)
    requires
        old(store).wf(),
    ensures
        final(store).wf(),
        name is None ==> (r@.status == 422 && r@.body == error_json("Missing field: name"@)
            && final(store)@ == old(store)@),
        name is Some && description is None ==> (r@.status == 422 && r@.body == error_json(
            "Missing field: description"@,
        ) && final(store)@ == old(store)@),
        name matches Some(n) ==> description matches Some(d) ==> old(store)@.len() < i64::MAX
            ==> ({
            let it = created_item(old(store)@, n@, d@);
            r@.status == 200 && r@.body == item_json(it) && final(store)@ == old(store)@.push(it)
        }),
        name is Some && description is Some && old(store)@.len() == i64::MAX ==> (r@
            == error_response_spec(AppError::Storage) && final(store)@ == old(store)@),
{
    match validate_create(name, description) {
        Ok((n, d)) => create_response(store, n, d),
        Err(e) => error_response(&e),
    }
}

/// The whole pipeline for one request: route the method and path, then
/// serve it against the store. `name` and `description` are the fields of
/// the decoded request body, if one was sent; only the create route reads
/// them. A request that matches no route is answered 404 with the envelope.
pub fn handle_request(
    store: &mut ItemStore,
    method: &str,
    path: &str,
    name: Option<String>,
    description: Option<String>,
) -> (r: Response)
    requires
        old(store).wf(),
    ensures
        final(store).wf(),
        match spec_route(method@, path@) {
            Route::ListItems => r@.status == 200 && r@.body == items_json(old(store)@)
                && final(store)@ == old(store)@,
            Route::CreateItem => {
                &&& (name is None ==> r@.status == 422 && r@.body == error_json(
                    "Missing field: name"@,
                ) && final(store)@ == old(store)@)
                &&& (name is Some && description is None ==> r@.status == 422 && r@.body
                    == error_json("Missing field: description"@) && final(store)@ == old(store)@)
                &&& (name matches Some(n) ==> description matches Some(d) ==> old(store)@.len()
                    < i64::MAX ==> ({
                    let it = created_item(old(store)@, n@, d@);
                    r@.status == 200 && r@.body == item_json(it)
                        && final(store)@ == old(store)@.push(it)
                }))
                &&& (name is Some && description is Some && old(store)@.len() == i64::MAX ==> r@
                    == error_response_spec(AppError::Storage) && final(store)@ == old(store)@)
            },
            Route::GetItem(id) => final(store)@ == old(store)@ && match get_spec(
                old(store)@,
                id as int,
            ) {
                Some(v) => r@.status == 200 && r@.body == item_json(v),
                None => r@ == error_response_spec(AppError::NotFound),
            },
            Route::Unknown => r@.status == 404 && r@.body == error_json("Not found"@)
                && final(store)@ == old(store)@,
        },
{
    match match_route(method, path) {
        Route::ListItems => list_response(store),
        Route::CreateItem => create_from_fields(store, name, description),
        Route::GetItem(id) => get_response(store, id),
        Route::Unknown => Response {
            status: 404,
            body: encode_error("Not found"),
        },
    }
}

} // verus!
