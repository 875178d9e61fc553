use thread_pool::{route, Route};

#[test]
fn root_request_is_served() {
    let mut buffer = [0u8; 512];
    let line = b"GET / HTTP/1.1\r\nHost: x\r\n\r\n";
    buffer[..line.len()].copy_from_slice(line);
    let r = route(&buffer);
    assert_eq!(r, Route::Hello);
    assert_eq!(r.status_line(), "HTTP/1.1 200 OK");
    assert_eq!(r.file_name(), "hello.html");
    assert!(!r.delays());
}

#[test]
fn sleep_request_is_served_late() {
    let r = route(b"GET /sleep HTTP/1.1\r\n");
    assert_eq!(r, Route::SleepThenHello);
    assert_eq!(r.status_line(), "HTTP/1.1 200 OK");
    assert_eq!(r.file_name(), "hello.html");
    assert!(r.delays());
}

#[test]
fn other_requests_are_not_found() {
    for req in [&b"GET /other HTTP/1.1\r\n"[..], b"POST / HTTP/1.1\r\n", b"GET / HTTP/1.1", b""] {
        let r = route(req);
        assert_eq!(r, Route::NotFound);
        assert_eq!(r.status_line(), "HTTP/1.1 404 NOT FOUND");
        assert_eq!(r.file_name(), "404.html");
        assert!(!r.delays());
    }
}
