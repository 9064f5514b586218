use hellorust::http::{frame_response, route, Route};

#[test]
fn known_request_lines_are_routed() {
    assert_eq!(route("GET / HTTP/1.1"), Route::Index);
    assert_eq!(route("GET /sleep HTTP/1.1"), Route::Sleep);
    assert_eq!(route("GET /other HTTP/1.1"), Route::NotFound);
    assert_eq!(route(""), Route::NotFound);
    assert_eq!(route("GET / HTTP/1.1 "), Route::NotFound);
}

#[test]
fn routes_name_status_file_and_delay() {
    assert_eq!(Route::Index.status_line(), "HTTP/1.1 200 OK");
    assert_eq!(Route::Index.file_name(), "index.html");
    assert_eq!(Route::Index.delay_secs(), 0);
    assert_eq!(Route::Sleep.status_line(), "HTTP 200 OK");
    assert_eq!(Route::Sleep.file_name(), "index.html");
    assert_eq!(Route::Sleep.delay_secs(), 5);
    assert_eq!(Route::NotFound.status_line(), "HTTP/1.1 404 NOT FOUND");
    assert_eq!(Route::NotFound.file_name(), "404.html");
    assert_eq!(Route::NotFound.delay_secs(), 0);
}

#[test]
fn response_is_framed_with_byte_length() {
    assert_eq!(
        frame_response("HTTP/1.1 200 OK", "hello"),
        "HTTP/1.1 200 OK\r\nContent Length: 5\r\n\r\nhello"
    );
    assert_eq!(
        frame_response("HTTP/1.1 404 NOT FOUND", ""),
        "HTTP/1.1 404 NOT FOUND\r\nContent Length: 0\r\n\r\n"
    );
    assert_eq!(frame_response("S", "\u{e9}"), "S\r\nContent Length: 2\r\n\r\n\u{e9}");
    let body = "x".repeat(1203);
    assert_eq!(
        frame_response("S", &body),
        format!("S\r\nContent Length: 1203\r\n\r\n{}", body)
    );
}
