use asyncrt::request::{get_path, get_req, push_decimal, read_request, request_path};

#[test]
fn decimal_notation() {
    let mut s = String::new();
    push_decimal(&mut s, 0);
    assert_eq!(s, "0");
    let mut s = String::from("x");
    push_decimal(&mut s, 1207);
    assert_eq!(s, "x1207");
    let mut s = String::new();
    push_decimal(&mut s, usize::MAX);
    assert_eq!(s, usize::MAX.to_string());
}

#[test]
fn paths() {
    assert_eq!(get_path(0), "/0/HelloWorld0");
    assert_eq!(get_path(3), "/3000/HelloWorld3");
    assert_eq!(read_request(4), "/4000/HelloWorld4");
    assert_eq!(request_path(5, 0), "/5000/request-0");
    assert_eq!(request_path(5, 4), "/1000/request-4");
}

#[test]
fn get_request_text() {
    assert_eq!(
        get_req("/1000/hello"),
        "GET /1000/hello HTTP/1.1\r\nHost: localhost\r\nConnection: close\r\n\r\n"
    );
}

#[test]
fn get_request_bytes() {
    let bytes = asyncrt::request_bytes::get_req("/600/HelloAsyncAwait");
    assert_eq!(
        bytes,
        b"GET /600/HelloAsyncAwait HTTP/1.1\r\nHost: localhost\r\nConnection: close\r\n\r\n".to_vec()
    );
}
