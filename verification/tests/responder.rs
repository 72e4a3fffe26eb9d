use rust_tour::responder::{
    build_response, classify, respond, status_line, Route, REQUEST_BUFFER_LEN,
};

const HELLO: &str = "<html><body>Hello!</body></html>\n";
const NOT_FOUND: &str = "<html><body>Oops!</body></html>\n";

/// A zero-filled request buffer holding the given request data, as the
/// server's single fixed-size read would leave it.
fn buffer_with(data: &[u8]) -> Vec<u8> {
    let mut buffer = vec![0u8; REQUEST_BUFFER_LEN];
    buffer[..data.len()].copy_from_slice(data);
    buffer
}

#[test]
fn get_root_serves_hello_page() {
    let buffer = buffer_with("GET / HTTP/1.1\r\nHost: x\r\n\r\n".as_bytes());
    let response = respond(&buffer, HELLO, NOT_FOUND);
    let mut expected = String::from("HTTP/1.1 200 OK\r\n\r\n");
    expected.push_str(HELLO);
    assert_eq!(response, expected);
}

#[test]
fn post_root_serves_not_found_page() {
    let buffer = buffer_with("POST / HTTP/1.1\r\n\r\n".as_bytes());
    let response = respond(&buffer, HELLO, NOT_FOUND);
    let mut expected = String::from("HTTP/1.1 404 NOT FOUND\r\n\r\n");
    expected.push_str(NOT_FOUND);
    assert_eq!(response, expected);
}

#[test]
fn other_path_serves_not_found_page() {
    let buffer = buffer_with("GET /anything HTTP/1.1\r\n\r\n".as_bytes());
    assert_eq!(classify(&buffer), Route::NotFound);
}

#[test]
fn root_request_with_any_suffix_is_root() {
    let buffer = buffer_with("GET / HTTP/1.1\r\nUser-Agent: curl\r\n\r\n".as_bytes());
    assert_eq!(classify(&buffer), Route::Root);
}

#[test]
fn same_request_twice_gives_identical_responses() {
    let buffer = buffer_with("GET / HTTP/1.1\r\n\r\n".as_bytes());
    let first = respond(&buffer, HELLO, NOT_FOUND);
    let second = respond(&buffer, HELLO, NOT_FOUND);
    assert_eq!(first, second);

    let buffer = buffer_with("POST / HTTP/1.1\r\n\r\n".as_bytes());
    let first = respond(&buffer, HELLO, NOT_FOUND);
    let second = respond(&buffer, HELLO, NOT_FOUND);
    assert_eq!(first, second);
}

#[test]
fn trailing_zero_bytes_do_not_corrupt_classification() {
    // The shortest root request, followed by a kilobyte of zeros.
    let buffer = buffer_with("GET / HTTP/1.1\r\n".as_bytes());
    assert_eq!(buffer.len(), REQUEST_BUFFER_LEN);
    assert_eq!(classify(&buffer), Route::Root);

    // Zeros alone never look like the root request.
    let empty = buffer_with(&[]);
    assert_eq!(classify(&empty), Route::NotFound);
}

#[test]
fn full_length_request_is_classified_whole() {
    // Request data of exactly the buffer length, no truncation.
    let mut data = Vec::from("GET / HTTP/1.1\r\n".as_bytes());
    while data.len() < REQUEST_BUFFER_LEN {
        data.push(b'x');
    }
    let response = respond(&data, HELLO, NOT_FOUND);
    assert!(response.starts_with("HTTP/1.1 200 OK\r\n\r\n"));
}

#[test]
fn short_buffer_is_not_found() {
    // Fewer bytes than the request line cannot match it.
    let response = respond("GET / HTTP".as_bytes(), HELLO, NOT_FOUND);
    let mut expected = String::from("HTTP/1.1 404 NOT FOUND\r\n\r\n");
    expected.push_str(NOT_FOUND);
    assert_eq!(response, expected);
}

#[test]
fn case_and_spacing_must_match_exactly() {
    assert_eq!(classify(&buffer_with("get / http/1.1\r\n".as_bytes())), Route::NotFound);
    assert_eq!(classify(&buffer_with("GET  / HTTP/1.1\r\n".as_bytes())), Route::NotFound);
    assert_eq!(classify(&buffer_with("GET / HTTP/1.0\r\n".as_bytes())), Route::NotFound);
}

#[test]
fn status_lines_are_exact() {
    assert_eq!(status_line(Route::Root), "HTTP/1.1 200 OK\r\n\r\n");
    assert_eq!(status_line(Route::NotFound), "HTTP/1.1 404 NOT FOUND\r\n\r\n");
}

#[test]
fn response_is_status_line_then_verbatim_body() {
    let response = build_response(Route::Root, "body bytes &\u{00e9}\n");
    assert_eq!(response, "HTTP/1.1 200 OK\r\n\r\nbody bytes &\u{00e9}\n");
}
