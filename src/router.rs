//! Dispatch of requests to the four record handlers, and the responses they give.

use vstd::prelude::*;
use vstd::string::*;
use crate::criteria::{Criteria, CriteriaModel, gender_name, gender_text};
use crate::parse::{fields_of, nat_of, parse_fields, parse_nat, text_eq};
use crate::store::{
    create_spec, delete_spec, read_spec, update_spec, PatchModel, RecordStore, StoreError,
    StoreModel,
};
use crate::text::{append_int, append_nat, int_text, nat_text};

verus! {

/// Status of a request that succeeded.
pub const OK: u16 = 200;

/// Status of a request that stored a new record.
pub const CREATED: u16 = 201;

/// Status of a request that succeeded with nothing to return.
pub const NO_CONTENT: u16 = 204;

/// Status of a request whose fields are malformed or invalid.
pub const BAD_REQUEST: u16 = 400;

/// Status of a request for a record or route that does not exist.
pub const NOT_FOUND: u16 = 404;

/// Status of a request that the store could not complete.
pub const INTERNAL_ERROR: u16 = 500;

/// The handler that a request goes to.
#[derive(Debug, Clone, Copy, PartialEq, Eq, Structural)]
pub enum Route {
    /// `POST /records`
    Create,
    /// `GET /records/{id}`
    Read(u64),
    /// `PUT /records/{id}`
    Update(u64),
    /// `DELETE /records/{id}`
    Delete(u64),
    /// Anything else.
    NotMatched,
}

/// The identifier in a path of the form `/records/{id}`.
pub open spec fn record_id_of(path: Seq<char>) -> Option<int> {
    if path.len() > 9 && path.subrange(0, 9) == "/records/"@ {
        nat_of(path.subrange(9, path.len() as int), u64::MAX as int)
    } else {
        None
    }
}

/// The route of a request, by its method and path.
pub open spec fn route_spec(method: Seq<char>, path: Seq<char>) -> Route {
    let id = record_id_of(path);
    if method == "POST"@ && path == "/records"@ {
        Route::Create
    } else if method == "GET"@ && id is Some {
        Route::Read(id->Some_0 as u64)
    } else if method == "PUT"@ && id is Some {
        Route::Update(id->Some_0 as u64)
    } else if method == "DELETE"@ && id is Some {
        Route::Delete(id->Some_0 as u64)
    } else {
        Route::NotMatched
    }
}

/// The route of a request, by its method and path.
pub fn route(method: &str, path: &str) -> (r: Route)
    ensures
        r == route_spec(method@, path@),
{
    proof {
        reveal_strlit("/records/");
        reveal_strlit("/records");
        reveal_strlit("POST");
        reveal_strlit("GET");
        reveal_strlit("PUT");
        reveal_strlit("DELETE");
    }
    if text_eq(method, "POST") && text_eq(path, "/records") {
        return Route::Create;
    }
    let n = path.unicode_len();
    let id = if n > 9 && text_eq(path.substring_char(0, 9), "/records/") {
        parse_nat(path.substring_char(9, n), u64::MAX)
    } else {
        None
    };
    match id {
        None => Route::NotMatched,
        Some(id) => {
            if text_eq(method, "GET") {
                Route::Read(id)
            } else if text_eq(method, "PUT") {
                Route::Update(id)
            } else if text_eq(method, "DELETE") {
                Route::Delete(id)
            } else {
                Route::NotMatched
            }
        },
    }
}

/// The mathematical value of a response.
pub struct ResponseModel {
    pub status: u16,
    pub body: Seq<char>,
}

/// A status code and a body of `key=value` pairs.
pub struct Response {
    pub status: u16,
    pub body: String,
}

impl View for Response {
    type V = ResponseModel;

    open spec fn view(&self) -> ResponseModel {
        ResponseModel { status: self.status, body: self.body@ }
    }
}

/// The status code of an error.
pub open spec fn error_status(e: StoreError) -> u16 {
    match e {
        StoreError::NotFound => NOT_FOUND,
        StoreError::ValidationError => BAD_REQUEST,
        StoreError::InternalError => INTERNAL_ERROR,
    }
}

/// The descriptor of an error: its kind and a message.
pub open spec fn error_text(e: StoreError) -> Seq<char> {
    match e {
        StoreError::NotFound => "kind=NotFound&message=no record has this identifier"@,
        StoreError::ValidationError => "kind=ValidationError&message=the fields are not valid"@,
        StoreError::InternalError => "kind=InternalError&message=the request could not be completed"@,
    }
}

/// The response that reports `e`.
pub open spec fn error_response(e: StoreError) -> ResponseModel {
    ResponseModel { status: error_status(e), body: error_text(e) }
}

/// The answer to a request that matches no route.
pub open spec fn unmatched_response() -> ResponseModel {
    ResponseModel { status: NOT_FOUND, body: "kind=NotFound&message=no route matches the request"@ }
}

/// The text of a record.
pub open spec fn record_text(c: CriteriaModel) -> Seq<char> {
    "age="@ + int_text(c.age as int) + "&gender="@ + gender_text(c.gender) + "&nationality="@
        + c.nationality
}

/// A record given in full by a set of fields, where all three are present.
pub open spec fn complete_fields(p: PatchModel) -> Option<CriteriaModel> {
    if p.age is Some && p.gender is Some && p.nationality is Some {
        Some(
            CriteriaModel {
                age: p.age->Some_0,
                gender: p.gender->Some_0,
                nationality: p.nationality->Some_0,
            },
        )
    } else {
        None
    }
}

/// What the create handler does with a request body.
pub open spec fn post_spec(s: StoreModel, body: Seq<char>) -> (StoreModel, ResponseModel) {
    match fields_of(body) {
        Some(p) => match complete_fields(p) {
            Some(f) => {
                let (t, r) = create_spec(s, f);
                match r {
                    Ok(id) => (t, ResponseModel { status: CREATED, body: "id="@ + nat_text(id as nat) }),
                    Err(e) => (t, error_response(e)),
                }
            },
            None => (s, error_response(StoreError::ValidationError)),
        },
        None => (s, error_response(StoreError::ValidationError)),
    }
}

/// What the read handler answers.
pub open spec fn get_spec(s: StoreModel, id: u64) -> ResponseModel {
    match read_spec(s, id) {
        Ok(c) => ResponseModel { status: OK, body: record_text(c) },
        Err(e) => error_response(e),
    }
}

/// What the update handler does with a request body.
pub open spec fn put_spec(s: StoreModel, id: u64, body: Seq<char>) -> (StoreModel, ResponseModel) {
    match fields_of(body) {
        Some(p) => {
            let (t, r) = update_spec(s, id, p);
            match r {
                Ok(c) => (t, ResponseModel { status: OK, body: record_text(c) }),
                Err(e) => (t, error_response(e)),
            }
        },
        None => (s, error_response(StoreError::ValidationError)),
    }
}

/// What the delete handler does.
pub open spec fn delete_route_spec(s: StoreModel, id: u64) -> (StoreModel, ResponseModel) {
    let (t, r) = delete_spec(s, id);
    match r {
        Ok(_) => (t, ResponseModel { status: NO_CONTENT, body: Seq::empty() }),
        Err(e) => (t, error_response(e)),
    }
}

/// What a request does to the store, and the one response it gets.
pub open spec fn handle_spec(s: StoreModel, method: Seq<char>, path: Seq<char>, body: Seq<char>) -> (StoreModel, ResponseModel) {
    match route_spec(method, path) {
        Route::Create => post_spec(s, body),
        Route::Read(id) => (s, get_spec(s, id)),
        Route::Update(id) => put_spec(s, id, body),
        Route::Delete(id) => delete_route_spec(s, id),
        Route::NotMatched => (s, unmatched_response()),
    }
}

/// The response that reports `e`.
pub fn error_reply(e: StoreError) -> (r: Response)
    ensures
        r@ == error_response(e),
{
    let text = match e {
        StoreError::NotFound => {
            proof { reveal_strlit("kind=NotFound&message=no record has this identifier"); }
            "kind=NotFound&message=no record has this identifier"
        },
        StoreError::ValidationError => {
            proof { reveal_strlit("kind=ValidationError&message=the fields are not valid"); }
            "kind=ValidationError&message=the fields are not valid"
        },
        StoreError::InternalError => {
            proof { reveal_strlit("kind=InternalError&message=the request could not be completed"); }
            "kind=InternalError&message=the request could not be completed"
        },
    };
    let status = match e {
        StoreError::NotFound => NOT_FOUND,
        StoreError::ValidationError => BAD_REQUEST,
        StoreError::InternalError => INTERNAL_ERROR,
    };
    Response { status, body: String::from_str(text) }
}

/// The text of a record.
pub fn render_record(c: &Criteria) -> (r: String)
    ensures
        r@ == record_text(c@),
{
    let mut out = String::from_str("age=");
    append_int(&mut out, c.age() as i64);
    out.append("&gender=");
    out.append(gender_name(c.gender()));
    out.append("&nationality=");
    out.append(c.nationality());
    proof {
        reveal_strlit("age=");
        reveal_strlit("&gender=");
        reveal_strlit("&nationality=");
    }
    assert(out@ =~= record_text(c@));
    out
}

/// Creates a record from a request body: `201` with the new identifier, or an error.
pub fn post_data(store: &mut RecordStore, body: &str) -> (r: Response)
    requires
        old(store).wf(),
    ensures
        final(store).wf(),
        (final(store)@, r@) == post_spec(old(store)@, body@),
{
    let p = match parse_fields(body) {
        Some(p) => p,
        None => return error_reply(StoreError::ValidationError),
    };
    let fields = match (p.age, p.gender, p.nationality) {
        (Some(a), Some(g), Some(n)) => Criteria::new(a, g, n),
        _ => return error_reply(StoreError::ValidationError),
    };
    match store.create(fields) {
        Ok(id) => {
            let mut out = String::from_str("id=");
            append_nat(&mut out, id);
            proof {
                reveal_strlit("id=");
            }
            assert(out@ =~= "id="@ + nat_text(id as nat));
            Response { status: CREATED, body: out }
        },
        Err(e) => error_reply(e),
    }
}

/// Reads the record stored under `id`: `200` with its text, or an error.
pub fn get_route(store: &RecordStore, id: u64) -> (r: Response)
    requires
        store.wf(),
    ensures
        r@ == get_spec(store@, id),
{
    let c = store.read(id);
    match c {
        Ok(c) => Response { status: OK, body: render_record(&c) },
        Err(e) => error_reply(e),
    }
}

/// Updates the record stored under `id` from a request body: `200` with its new text, or an error.
pub fn put_data(store: &mut RecordStore, id: u64, body: &str) -> (r: Response)
    requires
        old(store).wf(),
    ensures
        final(store).wf(),
        (final(store)@, r@) == put_spec(old(store)@, id, body@),
{
    let p = match parse_fields(body) {
        Some(p) => p,
        None => return error_reply(StoreError::ValidationError),
    };
    let r = store.update(id, p);
    match r {
        Ok(c) => Response { status: OK, body: render_record(&c) },
        Err(e) => error_reply(e),
    }
}

/// Deletes the record stored under `id`: `204` with an empty body, or an error.
pub fn delete_route(store: &mut RecordStore, id: u64) -> (r: Response)
    requires
        old(store).wf(),
    ensures
        final(store).wf(),
        (final(store)@, r@) == delete_route_spec(old(store)@, id),
{
    match store.delete(id) {
        Ok(()) => Response { status: NO_CONTENT, body: String::new() },
        Err(e) => error_reply(e),
    }
}

/// Runs one request against the store and gives its one response.
pub fn handle(store: &mut RecordStore, method: &str, path: &str, body: &str) -> (r: Response)
    requires
        old(store).wf(),
    ensures
        final(store).wf(),
        (final(store)@, r@) == handle_spec(old(store)@, method@, path@, body@),
{
    match route(method, path) {
        Route::Create => post_data(store, body),
        Route::Read(id) => get_route(store, id),
        Route::Update(id) => put_data(store, id, body),
        Route::Delete(id) => delete_route(store, id),
        Route::NotMatched => {
            proof {
                reveal_strlit("kind=NotFound&message=no route matches the request");
            }
            Response {
                status: NOT_FOUND,
                body: String::from_str("kind=NotFound&message=no route matches the request"),
            }
        },
    }
}

} // verus!
