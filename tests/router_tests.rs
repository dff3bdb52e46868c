use records::parse::{parse_fields, parse_gender, parse_int, parse_nat};
use records::criteria::Gender;
use records::router::{error_reply, handle, route, Route};
use records::store::{RecordStore, StoreError};
use records::text::int_to_text;

#[test]
fn routes_by_method_and_path() {
    assert_eq!(route("POST", "/records"), Route::Create);
    assert_eq!(route("GET", "/records/1"), Route::Read(1));
    assert_eq!(route("PUT", "/records/42"), Route::Update(42));
    assert_eq!(route("DELETE", "/records/18446744073709551615"), Route::Delete(u64::MAX));
    assert_eq!(route("GET", "/records/18446744073709551616"), Route::NotMatched);
    assert_eq!(route("GET", "/records"), Route::NotMatched);
    assert_eq!(route("POST", "/records/1"), Route::NotMatched);
    assert_eq!(route("GET", "/records/"), Route::NotMatched);
    assert_eq!(route("GET", "/records/1a"), Route::NotMatched);
    assert_eq!(route("PATCH", "/records/1"), Route::NotMatched);
    assert_eq!(route("GET", "/other/1"), Route::NotMatched);
}

#[test]
fn full_request_cycle() {
    let mut store = RecordStore::new();
    let r = handle(&mut store, "POST", "/records", "age=65&gender=Other&nationality=Indian");
    assert_eq!((r.status, r.body.as_str()), (201, "id=1"));
    let r = handle(&mut store, "GET", "/records/1", "");
    assert_eq!((r.status, r.body.as_str()), (200, "age=65&gender=Others&nationality=Indian"));
    let r = handle(&mut store, "PUT", "/records/1", "age=98");
    assert_eq!((r.status, r.body.as_str()), (200, "age=98&gender=Others&nationality=Indian"));
    let r = handle(&mut store, "DELETE", "/records/1", "");
    assert_eq!((r.status, r.body.as_str()), (204, ""));
    let r = handle(&mut store, "GET", "/records/1", "");
    assert_eq!(r.status, 404);
    assert_eq!(r.body, "kind=NotFound&message=no record has this identifier");
}

#[test]
fn create_with_negative_age_is_bad_request() {
    let mut store = RecordStore::new();
    let r = handle(&mut store, "POST", "/records", "age=-1&gender=Male&nationality=Indian");
    assert_eq!(r.status, 400);
    assert_eq!(r.body, "kind=ValidationError&message=the fields are not valid");
    assert_eq!(store.len(), 0);
}

#[test]
fn create_with_missing_or_malformed_fields_is_bad_request() {
    let mut store = RecordStore::new();
    for body in ["age=3&gender=Male", "", "age=3&colour=red&gender=Male&nationality=X", "age", "age=x&gender=Male&nationality=X"] {
        let r = handle(&mut store, "POST", "/records", body);
        assert_eq!(r.status, 400);
    }
    assert_eq!(store.len(), 0);
}

#[test]
fn unmatched_route_is_not_found() {
    let mut store = RecordStore::new();
    let r = handle(&mut store, "GET", "/elsewhere", "");
    assert_eq!(r.status, 404);
    assert_eq!(r.body, "kind=NotFound&message=no route matches the request");
}

#[test]
fn update_of_missing_record_is_not_found() {
    let mut store = RecordStore::new();
    let r = handle(&mut store, "PUT", "/records/9", "age=5");
    assert_eq!(r.status, 404);
    let r = handle(&mut store, "DELETE", "/records/9", "");
    assert_eq!(r.status, 404);
}

#[test]
fn internal_error_reply() {
    let r = error_reply(StoreError::InternalError);
    assert_eq!(r.status, 500);
    assert_eq!(r.body, "kind=InternalError&message=the request could not be completed");
}

#[test]
fn parses_fields_in_order() {
    let p = parse_fields("nationality=Irish&age=7&gender=Female&age=8").unwrap();
    assert_eq!(p.age, Some(8));
    assert_eq!(p.gender, Some(Gender::Female));
    assert_eq!(p.nationality.as_deref(), Some("Irish"));
    let e = parse_fields("").unwrap();
    assert_eq!((e.age, e.gender, e.nationality), (None, None, None));
    assert!(parse_fields("age=1&&gender=Male").is_none());
    assert!(parse_fields("gender=Robot").is_none());
    let t = parse_fields("nationality=").unwrap();
    assert_eq!(t.nationality.as_deref(), Some(""));
}

#[test]
fn parses_numbers() {
    assert_eq!(parse_nat("0", 10), Some(0));
    assert_eq!(parse_nat("10", 10), Some(10));
    assert_eq!(parse_nat("11", 10), None);
    assert_eq!(parse_nat("", 10), None);
    assert_eq!(parse_nat("1-", 10), None);
    assert_eq!(parse_nat("18446744073709551615", u64::MAX), Some(u64::MAX));
    assert_eq!(parse_int("-2147483648"), Some(i32::MIN));
    assert_eq!(parse_int("2147483647"), Some(i32::MAX));
    assert_eq!(parse_int("2147483648"), None);
    assert_eq!(parse_int("-"), None);
    assert_eq!(parse_int("-0"), Some(0));
}

#[test]
fn parses_genders() {
    assert_eq!(parse_gender("Male"), Some(Gender::Male));
    assert_eq!(parse_gender("Female"), Some(Gender::Female));
    assert_eq!(parse_gender("Other"), Some(Gender::Others));
    assert_eq!(parse_gender("Others"), Some(Gender::Others));
    assert_eq!(parse_gender("male"), None);
}

#[test]
fn renders_integers() {
    assert_eq!(int_to_text(0), "0");
    assert_eq!(int_to_text(1234567890), "1234567890");
    assert_eq!(int_to_text(-42), "-42");
    assert_eq!(int_to_text(i64::MIN), "-9223372036854775808");
    assert_eq!(int_to_text(i64::MAX), "9223372036854775807");
}
