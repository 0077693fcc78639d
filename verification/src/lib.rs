//! A minimal HTTP/1.1 message layer.
//!
//! The crate turns raw request text into a structured [`httprequest::HttpRequest`],
//! builds an [`httpresponse::HttpResponse`] from a status code, optional headers
//! and an optional body, renders a response to its exact wire text, and decides
//! which handling strategy a parsed request is dispatched to.
//!
//! Reading from and writing to a transport, and the handlers that produce
//! response bodies, are collaborators outside this crate; the one I/O touch
//! point, [`httpresponse::HttpResponse::send_response`], hands the rendered
//! text to any `std::io::Write` sink.

pub mod headers;
pub mod httprequest;
pub mod httpresponse;
pub mod router;
pub mod text;
