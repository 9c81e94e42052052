use web_server::http::{status_line, Content, Message, Variant};

#[test]
fn ok_text_renders_status_header_body() {
    let m = Message::new(Variant::Okay, Content::Text(String::from("hi")));
    assert_eq!(
        m.to_http_string(None),
        "HTTP/1.1 200 OK\r\nContent-Type: text/plain\r\nhi"
    );
}

#[test]
fn struct_renders_with_blank_header() {
    let m = Message::new(Variant::Okay, Content::Struct(String::from("[\"a\"]")));
    assert_eq!(m.to_http_string(None), "HTTP/1.1 200 OK\r\n\r\n[\"a\"]");
}

#[test]
fn empty_renders_header_only() {
    let m = Message::default();
    assert_eq!(m.to_http_string(None), "HTTP/1.1 200 OK\r\n\r\n");
}

#[test]
fn internal_server_error_status_line() {
    let m = Message::internal_server_error(String::from("it broke"));
    assert_eq!(
        m.to_http_string(None),
        "500 Internal Server Error\r\nContent-Type: text/plain\r\nit broke"
    );
}

#[test]
fn not_found_status_line() {
    let m = Message::new(Variant::NotFound, Content::Text(String::from("nope")));
    assert_eq!(
        m.to_http_string(None),
        "HTTP/1.1 404 NOT FOUND\r\nContent-Type: text/plain\r\nnope"
    );
}

#[test]
fn service_unavailable_status_line() {
    assert_eq!(
        status_line(Variant::ServiceUnavailable),
        "HTTP/1.1 503 Service Unavailable\r\n"
    );
}

#[test]
fn file_content_renders_the_read_text() {
    let m = Message::new(Variant::Okay, Content::File(String::from("hello.html")));
    assert_eq!(m.file_name(), Some(String::from("hello.html")));
    let rendered = m.to_http_string(Some(Ok(String::from("<html></html>"))));
    assert_eq!(rendered, "HTTP/1.1 200 OK\r\n\r\n<html></html>");
}

#[test]
fn failed_file_read_degrades_to_not_found() {
    let m = Message::new(Variant::Okay, Content::File(String::from("missing.html")));
    let rendered = m.to_http_string(Some(Err(String::from("No such file"))));
    assert_eq!(
        rendered,
        "HTTP/1.1 404 NOT FOUND \r\n Content-Type: text/plain\r\n No such file"
    );
}

#[test]
fn non_file_content_needs_no_read() {
    let m = Message::new(Variant::Okay, Content::Text(String::from("x")));
    assert_eq!(m.file_name(), None);
}

#[test]
fn raw_bytes_bypass_text_serialization() {
    let m = Message::new(Variant::Okay, Content::RawBytes(vec![0xde, 0xad]));
    let bytes = m.raw_bytes_response();
    let mut expected = b"HTTP/1.1 200 OK\r\n\r\n".to_vec();
    expected.extend_from_slice(&[0xde, 0xad]);
    assert_eq!(bytes, expected);
}
