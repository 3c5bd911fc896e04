use tarball_fetch::decimal::append_decimal;
use tarball_fetch::error::{body_error, request_error};
use tarball_fetch::fetch::{fetch_result, request_status, FetchOutcome};

#[test]
fn not_found_names_the_code() {
    let r = fetch_result(FetchOutcome::RequestFailed(Some(404)));
    assert_eq!(r.unwrap_err().0, "Request failed with the code: 404.");
}

#[test]
fn connection_failure_has_generic_message() {
    let r = fetch_result(FetchOutcome::RequestFailed(None));
    assert_eq!(r.unwrap_err().message(), "Request failed.");
}

#[test]
fn body_failure_message() {
    let r = fetch_result(FetchOutcome::BodyFailed);
    assert_eq!(r.unwrap_err().0, "Couldn't get the response body as bytes.");
    assert_eq!(body_error().0, "Couldn't get the response body as bytes.");
}

#[test]
fn received_bytes_come_back_unchanged() {
    let body = vec![0x1f, 0x8b, 0x08, 0x00, 0x00, 0xff];
    let r = fetch_result(FetchOutcome::Received(body.clone()));
    assert_eq!(r.unwrap(), body);
}

#[test]
fn empty_body_is_a_success() {
    assert_eq!(fetch_result(FetchOutcome::Received(Vec::new())).unwrap(), Vec::<u8>::new());
}

#[test]
fn status_codes_at_the_ends_of_the_range() {
    assert_eq!(request_error(Some(100)).0, "Request failed with the code: 100.");
    assert_eq!(request_error(Some(500)).0, "Request failed with the code: 500.");
    assert_eq!(request_error(Some(999)).0, "Request failed with the code: 999.");
}

#[test]
fn decimal_notation() {
    let cases: [(u16, &str); 6] =
        [(0, "0"), (7, "7"), (10, "10"), (404, "404"), (1000, "1000"), (65535, "65535")];
    for (n, text) in cases {
        let mut s = "n=".to_string();
        append_decimal(&mut s, n);
        assert_eq!(s, format!("n={text}"));
    }
}

#[test]
fn status_of_an_error_response() {
    let response = http::Response::builder().status(404).body("").unwrap();
    let err = reqwest::Response::from(response).error_for_status().unwrap_err();
    assert_eq!(request_status(&err), Some(404));
    let r = fetch_result(FetchOutcome::RequestFailed(request_status(&err)));
    assert_eq!(r.unwrap_err().0, "Request failed with the code: 404.");
}

#[test]
fn error_without_status() {
    let err = reqwest::Client::new().get("not a url").build().unwrap_err();
    assert_eq!(request_status(&err), None);
    let r = fetch_result(FetchOutcome::RequestFailed(request_status(&err)));
    assert_eq!(r.unwrap_err().0, "Request failed.");
}
