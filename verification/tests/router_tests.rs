use http::headers::Headers;
use http::httprequest::{HttpMethod, HttpRequest, HttpVersion, Resource};
use http::router::{RouteTarget, Router};

fn request_with(method: HttpMethod, path: &str) -> HttpRequest {
    HttpRequest {
        method,
        resource: Resource::Path(path.to_string()),
        version: HttpVersion::V1_1,
        headers: Headers::new(),
        msg_body: String::new(),
    }
}

#[test]
fn test_route_get_api_selects_service() {
    let req = request_with(HttpMethod::Get, "/api/anything");
    assert_eq!(RouteTarget::WebService, Router::select_handler(&req));
}

#[test]
fn test_route_get_page_selects_static() {
    let req = request_with(HttpMethod::Get, "/index.html");
    assert_eq!(RouteTarget::StaticPage, Router::select_handler(&req));
}

#[test]
fn test_route_post_selects_not_found() {
    let req = request_with(HttpMethod::Post, "/api/anything");
    assert_eq!(RouteTarget::PageNotFound, Router::select_handler(&req));
}

#[test]
fn test_route_uninitialized_selects_not_found() {
    let req = request_with(HttpMethod::Uninitialized, "/index.html");
    assert_eq!(RouteTarget::PageNotFound, Router::select_handler(&req));
}

#[test]
fn test_route_path_without_slash_is_static() {
    let req = request_with(HttpMethod::Get, "api");
    assert_eq!(RouteTarget::StaticPage, Router::select_handler(&req));
}

#[test]
fn test_route_empty_path_is_static() {
    let req = request_with(HttpMethod::Get, "");
    assert_eq!(RouteTarget::StaticPage, Router::select_handler(&req));
}

#[test]
fn test_route_first_nonempty_segment_decides() {
    let leading_double_slash = request_with(HttpMethod::Get, "//api");
    assert_eq!(
        RouteTarget::WebService,
        Router::select_handler(&leading_double_slash)
    );
    let other_first_segment = request_with(HttpMethod::Get, "x/api");
    assert_eq!(
        RouteTarget::StaticPage,
        Router::select_handler(&other_first_segment)
    );
}

#[test]
fn test_route_parsed_request_end_to_end() {
    let raw = "Get /api/shipping/orders HTTP/1.1\r\nHost:localhost\r\n";
    let req = HttpRequest::from(raw).unwrap();
    assert_eq!(RouteTarget::WebService, Router::select_handler(&req));
}
