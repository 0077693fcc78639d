use http::headers::Headers;
use http::httpresponse::HttpResponse;

#[test]
fn test_response_struct_creation_200() {
    let response = HttpResponse::new("200", None, Some("text".into()));
    assert_eq!("http/1.1", response.version());
    assert_eq!("200", response.status_code());
    assert_eq!("ok", response.status_text());
    assert_eq!("Content-Type:text/html\r\n", response.headers());
    assert_eq!("text", response.body());
}

#[test]
fn test_response_struct_creation_404() {
    let response = HttpResponse::new("404", None, Some("text".into()));
    assert_eq!("http/1.1", response.version());
    assert_eq!("404", response.status_code());
    assert_eq!("not found", response.status_text());
    assert_eq!("Content-Type:text/html\r\n", response.headers());
    assert_eq!("text", response.body());
}

#[test]
fn test_http_response_creation() {
    let response_expected = HttpResponse::new("404", None, Some("text".into()));
    let http_string: String = response_expected.serialize();
    let actual_string =
        "http/1.1 404 not found\r\nContent-Type:text/html\r\nContent-Length: 4\r\n\r\ntext";
    assert_eq!(http_string, actual_string);
}

#[test]
fn test_status_text_table() {
    assert_eq!("ok", HttpResponse::new("200", None, None).status_text());
    assert_eq!(
        "400 Bad Request",
        HttpResponse::new("400", None, None).status_text()
    );
    assert_eq!("not found", HttpResponse::new("404", None, None).status_text());
    assert_eq!(
        "500 Internal Server Error",
        HttpResponse::new("500", None, None).status_text()
    );
    assert_eq!("not found", HttpResponse::new("302", None, None).status_text());
}

#[test]
fn test_default_response() {
    let response = HttpResponse::default();
    assert_eq!("http/1.1", response.version());
    assert_eq!("200", response.status_code());
    assert_eq!("ok", response.status_text());
    assert_eq!("", response.headers());
    assert_eq!("", response.body());
}

#[test]
fn test_supplied_headers_used_verbatim() {
    let mut h = Headers::new();
    h.insert("X-Custom".to_string(), "yes".to_string());
    let response = HttpResponse::new("200", Some(h), None);
    assert_eq!("X-Custom:yes\r\n", response.headers());
}

#[test]
fn test_supplied_empty_headers_not_defaulted() {
    let response = HttpResponse::new("200", Some(Headers::new()), None);
    assert_eq!("", response.headers());
}

#[test]
fn test_serialize_absent_body_counts_zero_bytes() {
    let response = HttpResponse::new("200", None, None);
    assert_eq!(
        "http/1.1 200 ok\r\nContent-Type:text/html\r\nContent-Length: 0\r\n\r\n",
        response.serialize()
    );
}

#[test]
fn test_serialize_counts_bytes_not_chars() {
    let response = HttpResponse::new("200", None, Some("h\u{e9}llo".into()));
    let wire = response.serialize();
    assert!(wire.contains("Content-Length: 6\r\n"));
}

#[test]
fn test_serialize_multi_digit_content_length() {
    let response = HttpResponse::new("200", None, Some("0123456789".into()));
    let wire = response.serialize();
    assert!(wire.contains("Content-Length: 10\r\n"));
}

#[test]
fn test_serialize_repeated_is_identical() {
    let mut h = Headers::new();
    h.insert("X-One".to_string(), "1".to_string());
    h.insert("X-Two".to_string(), "2".to_string());
    let response = HttpResponse::new("200", Some(h), Some("payload".into()));
    let first = response.serialize();
    let second = response.serialize();
    assert_eq!(first.as_bytes(), second.as_bytes());
}

#[test]
fn test_send_response_writes_serialized_bytes() {
    let response = HttpResponse::new("404", None, Some("text".into()));
    let mut sink: Vec<u8> = Vec::new();
    response.send_response(&mut sink).unwrap();
    let expected =
        "http/1.1 404 not found\r\nContent-Type:text/html\r\nContent-Length: 4\r\n\r\ntext";
    assert_eq!(expected.as_bytes(), sink.as_slice());
}
