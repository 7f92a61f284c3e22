use webserver::request::make_response;
use webserver::request::resolve_request;
use webserver::request::resource_location;
use webserver::request::resolve_outcome;
use webserver::request::RequestAction;
use webserver::request::Resolved;
use webserver::response::create_msg_from_code;
use webserver::response::BuildError;

const OK_200: &[u8] = b"HTTP/1.0 200 OK\r\nserver: mio webserver\r\n\r\n";
const BAD_400: &[u8] = b"HTTP/1.0 400 Bad Request\r\nServer: mio webserver\r\n\r\n";
const MISSING_404: &[u8] = b"HTTP/1.0 404 Not Found\r\nServer: mio webserver\r\n\r\n";
const UNSUPPORTED_501: &[u8] = b"HTTP/1.0 501 Not Implemented\r\nServer: mio webserver\r\n\r\n";

#[test]
fn get_extracts_path_token() {
    match resolve_request(b"GET /index.html HTTP/1.0\r\n\r\n") {
        RequestAction::Fetch(p) => assert_eq!(p, b"/index.html".to_vec()),
        RequestAction::Respond(code) => panic!("expected a fetch, got {}", code),
    }
}

#[test]
fn serves_file_with_exact_bytes() {
    let resp = make_response(b"GET /index.html HTTP/1.0\r\n\r\n", Some(b"hello".to_vec()));
    let mut expected = OK_200.to_vec();
    expected.extend_from_slice(b"hello");
    assert_eq!(resp, expected);
}

#[test]
fn missing_file_is_404() {
    let resp = make_response(b"GET /missing HTTP/1.0\r\n\r\n", None);
    assert_eq!(resp, MISSING_404.to_vec());
}

#[test]
fn delete_method_is_501() {
    match resolve_request(b"DELETE /x HTTP/1.0\r\n\r\n") {
        RequestAction::Respond(code) => assert_eq!(code, 501),
        RequestAction::Fetch(_) => panic!("expected an immediate response"),
    }
    let resp = make_response(b"DELETE /x HTTP/1.0\r\n\r\n", None);
    assert_eq!(resp, UNSUPPORTED_501.to_vec());
}

#[test]
fn missing_protocol_suffix_is_400() {
    let resp = make_response(b"GET /x\r\n\r\n", None);
    assert_eq!(resp, BAD_400.to_vec());
}

#[test]
fn empty_input_is_400() {
    let resp = make_response(b"", None);
    assert_eq!(resp, BAD_400.to_vec());
}

#[test]
fn http_version_2_is_400() {
    let resp = make_response(b"GET /x HTTP/1.2\r\n\r\n", Some(b"hello".to_vec()));
    assert_eq!(resp, BAD_400.to_vec());
}

#[test]
fn invalid_utf8_in_path_is_400() {
    let resp = make_response(b"GET /\xff\xfe HTTP/1.0\r\n\r\n", Some(b"hello".to_vec()));
    assert_eq!(resp, BAD_400.to_vec());
}

#[test]
fn invalid_utf8_after_request_line_is_400() {
    // The bytes match the request-line shape, but the input as a whole does
    // not decode, so the request is rejected rather than served.
    let resp = make_response(b"GET /x HTTP/1.0\r\n\xff\xff", Some(b"hello".to_vec()));
    assert_eq!(resp, BAD_400.to_vec());
}

#[test]
fn version_digit_does_not_change_behaviour() {
    let with_10 = make_response(b"GET /a HTTP/1.0\r\n\r\n", Some(b"x".to_vec()));
    let with_11 = make_response(b"GET /a HTTP/1.1\r\n\r\n", Some(b"x".to_vec()));
    assert_eq!(with_10, with_11);
}

#[test]
fn repeated_request_is_byte_identical() {
    let first = make_response(b"GET /index.html HTTP/1.0\r\n\r\n", Some(b"hello".to_vec()));
    let second = make_response(b"GET /index.html HTTP/1.0\r\n\r\n", Some(b"hello".to_vec()));
    assert_eq!(first, second);
}

#[test]
fn builder_emits_exact_success_bytes() {
    let r = create_msg_from_code(200, Some(b"body".to_vec())).unwrap();
    let mut expected = OK_200.to_vec();
    expected.extend_from_slice(b"body");
    assert_eq!(r, expected);
}

#[test]
fn builder_success_without_payload_is_bare_header() {
    let r = create_msg_from_code(200, None).unwrap();
    assert_eq!(r, OK_200.to_vec());
}

#[test]
fn builder_error_statuses_ignore_payload() {
    assert_eq!(create_msg_from_code(400, Some(b"x".to_vec())).unwrap(), BAD_400.to_vec());
    assert_eq!(create_msg_from_code(404, Some(b"x".to_vec())).unwrap(), MISSING_404.to_vec());
    assert_eq!(create_msg_from_code(501, Some(b"x".to_vec())).unwrap(), UNSUPPORTED_501.to_vec());
}

#[test]
fn builder_refuses_unsupported_status() {
    assert_eq!(create_msg_from_code(500, None), Err(BuildError::UnsupportedStatus));
    assert_eq!(create_msg_from_code(0, Some(b"x".to_vec())), Err(BuildError::UnsupportedStatus));
}

#[test]
fn outcome_serves_read_bytes_or_fails_not_found() {
    match resolve_outcome(b"GET /a HTTP/1.0\r\n\r\n", Some(b"payload".to_vec())) {
        Resolved::Serve(v) => assert_eq!(v, b"payload".to_vec()),
        Resolved::Error(code) => panic!("expected the bytes to be served, got {}", code),
    }
    match resolve_outcome(b"GET /a HTTP/1.0\r\n\r\n", None) {
        Resolved::Error(code) => assert_eq!(code, 404),
        Resolved::Serve(_) => panic!("expected not-found"),
    }
    match resolve_outcome(b"PUT /a HTTP/1.0\r\n\r\n", Some(b"payload".to_vec())) {
        Resolved::Error(code) => assert_eq!(code, 501),
        Resolved::Serve(_) => panic!("expected not-implemented"),
    }
    match resolve_outcome(b"nonsense", None) {
        Resolved::Error(code) => assert_eq!(code, 400),
        Resolved::Serve(_) => panic!("expected bad-request"),
    }
}

#[test]
fn resource_location_prefixes_webroot() {
    assert_eq!(resource_location(b"/index.html"), b"/webroot/index.html".to_vec());
    assert_eq!(resource_location(b""), b"/webroot".to_vec());
}
