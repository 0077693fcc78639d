use http::httprequest::{
    proces_header_line, process_req_line, HttpMethod, HttpRequest, HttpVersion, ParseError,
    Resource,
};

#[test]
fn test_method_into() {
    let m = HttpMethod::from("Get");
    assert_eq!(HttpMethod::Get, m);
}

#[test]
fn test_version_into() {
    let m = HttpVersion::from("HTTP/1.1");
    assert_eq!(HttpVersion::V1_1, m);
}

#[test]
fn test_read_http() {
    let s = String::from(
        "Get /greeting HTTP/1.1\r\nHost:localhost:8000\r\nAccept:*/*\r\nUser-Agent:curl/7.71.1\r\n",
    );
    let req: HttpRequest = HttpRequest::from(&s).unwrap();

    assert_eq!(HttpMethod::Get, req.method);
    assert_eq!(HttpVersion::V1_1, req.version);
    assert_eq!(Resource::Path("/greeting".to_string()), req.resource);
    assert_eq!(3, req.headers.len());
    assert_eq!(Some(&"localhost".to_string()), req.headers.get("Host"));
    assert_eq!(Some(&"*/*".to_string()), req.headers.get("Accept"));
    assert_eq!(Some(&"curl/7.71.1".to_string()), req.headers.get("User-Agent"));
}

#[test]
fn test_method_from_post() {
    assert_eq!(HttpMethod::Post, HttpMethod::from("Post"));
}

#[test]
fn test_method_from_unrecognized() {
    assert_eq!(HttpMethod::Uninitialized, HttpMethod::from("get"));
    assert_eq!(HttpMethod::Uninitialized, HttpMethod::from("GET"));
    assert_eq!(HttpMethod::Uninitialized, HttpMethod::from("Delete"));
    assert_eq!(HttpMethod::Uninitialized, HttpMethod::from(""));
}

#[test]
fn test_version_from_unrecognized() {
    assert_eq!(HttpVersion::Uninitialized, HttpVersion::from("HTTP/2.0"));
    assert_eq!(HttpVersion::Uninitialized, HttpVersion::from("http/1.1"));
    assert_eq!(HttpVersion::Uninitialized, HttpVersion::from(""));
}

#[test]
fn test_process_req_line_tokens() {
    let parsed = process_req_line("Get /greeting HTTP/1.1");
    assert_eq!(
        Ok((
            HttpMethod::Get,
            Resource::Path("/greeting".to_string()),
            HttpVersion::V1_1
        )),
        parsed
    );
}

#[test]
fn test_process_req_line_extra_tokens_ignored() {
    let parsed = process_req_line("Post /submit HTTP/1.1 trailing junk");
    assert_eq!(
        Ok((
            HttpMethod::Post,
            Resource::Path("/submit".to_string()),
            HttpVersion::V1_1
        )),
        parsed
    );
}

#[test]
fn test_process_req_line_too_few_tokens() {
    assert_eq!(Err(ParseError::MalformedRequestLine), process_req_line("HTTP"));
    assert_eq!(
        Err(ParseError::MalformedRequestLine),
        process_req_line("Get HTTP/1.1")
    );
}

#[test]
fn test_parse_rejects_short_request_line() {
    let res = HttpRequest::from("Get HTTP/1.1\r\nHost:localhost\r\n");
    assert!(matches!(res, Err(ParseError::MalformedRequestLine)));
}

#[test]
fn test_header_line_split_at_first_colon() {
    let (key, value) = proces_header_line("Host:localhost:8000");
    assert_eq!("Host", key);
    assert_eq!("localhost", value);
}

#[test]
fn test_header_line_without_value() {
    let (key, value) = proces_header_line("Host:");
    assert_eq!("Host", key);
    assert_eq!("", value);
}

#[test]
fn test_parse_empty_input_yields_defaults() {
    let req = HttpRequest::from("").unwrap();
    assert_eq!(HttpMethod::Uninitialized, req.method);
    assert_eq!(HttpVersion::V1_1, req.version);
    assert_eq!(Resource::Path("".to_string()), req.resource);
    assert_eq!(0, req.headers.len());
    assert_eq!("", req.msg_body);
}

#[test]
fn test_parse_last_body_line_wins() {
    let req = HttpRequest::from("Get / HTTP/1.1\r\nfirst body line\r\nsecond body line\r\n")
        .unwrap();
    assert_eq!("second body line", req.msg_body);
}

#[test]
fn test_parse_repeated_header_key_overwrites() {
    let req = HttpRequest::from("Get / HTTP/1.1\r\nToken:1\r\nToken:2\r\n").unwrap();
    assert_eq!(1, req.headers.len());
    assert_eq!(Some(&"2".to_string()), req.headers.get("Token"));
}

#[test]
fn test_parse_missing_header_key() {
    let req = HttpRequest::from("Get / HTTP/1.1\r\nHost:localhost\r\n").unwrap();
    assert_eq!(None, req.headers.get("Accept"));
}
