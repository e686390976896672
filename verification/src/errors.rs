//! The error replies of the panel: parser failures, missing pages, and
//! the shape an error takes for each request method.

use vstd::prelude::*;
use crate::envelope::{error_envelope, Envelope};
use crate::guard::HttpMethod;

verus! {

/// The form an error reply takes.
pub enum ErrorResponse {
    /// A JSON error body, for writes.
    Json(Envelope),
    /// A rendered error page, for reads.
    Html { message: String, url: String },
    /// A bare text body, when no application state is at hand.
    Text(String),
}

/// Shapes an error reply: bare text without application state, JSON
/// for writes, an error page without redirect for reads.
pub fn get_error_response(has_state: bool, method: HttpMethod, error: &str) -> (r: ErrorResponse)
    ensures
        !has_state ==> (r matches ErrorResponse::Text(t) && t@ == error@),
        has_state && (method matches HttpMethod::Post) ==> (r matches ErrorResponse::Json(e)
            && !e.success && e.message@ == error@),
        has_state && !(method matches HttpMethod::Post) ==> (r matches ErrorResponse::Html {
            message,
            url,
        } && message@ == error@ && url@.len() == 0),
{
    if !has_state {
        return ErrorResponse::Text(String::from_str(error));
    }
    match method {
        HttpMethod::Post => ErrorResponse::Json(error_envelope(error)),
        _ => ErrorResponse::Html { message: String::from_str(error), url: String::new() },
    }
}

/// The message shown for a JSON body that would not parse: the parser's
/// own words while debugging, a fixed text otherwise.
pub fn json_parser_error(debug: bool, raw: String) -> (r: String)
    ensures
        debug ==> r@ == raw@,
        !debug ==> r@ == "json error"@,
{
    if debug {
        raw
    } else {
        String::from_str("json error")
    }
}

/// The message shown for a form body that would not parse.
pub fn form_parser_error(debug: bool, raw: String) -> (r: String)
    ensures
        debug ==> r@ == raw@,
        !debug ==> r@ == "form empty"@,
{
    if debug {
        raw
    } else {
        String::from_str("form empty")
    }
}

/// The message shown for a query string that would not parse.
pub fn query_parser_error(debug: bool, raw: String) -> (r: String)
    ensures
        debug ==> r@ == raw@,
        !debug ==> r@ == "query empty"@,
{
    if debug {
        raw
    } else {
        String::from_str("query empty")
    }
}

/// The message shown for a path that would not parse.
pub fn path_parser_error(debug: bool, raw: String) -> (r: String)
    ensures
        debug ==> r@ == raw@,
        !debug ==> r@ == "path error"@,
{
    if debug {
        raw
    } else {
        String::from_str("path error")
    }
}

/// The reply for a route that matched nothing.
pub fn not_found(has_state: bool, method: HttpMethod) -> (r: ErrorResponse)
    ensures
        !has_state ==> (r matches ErrorResponse::Text(t) && t@ == "Page not found"@),
        has_state && (method matches HttpMethod::Post) ==> (r matches ErrorResponse::Json(e)
            && !e.success && e.message@ == "Page not found"@),
        has_state && !(method matches HttpMethod::Post) ==> (r matches ErrorResponse::Html {
            message,
            url,
        } && message@ == "Page not found"@ && url@.len() == 0),
{
    get_error_response(has_state, method, "Page not found")
}

/// The reply of the fallback handler.
pub fn app_default(has_state: bool, method: HttpMethod) -> (r: ErrorResponse)
    ensures
        !has_state ==> (r matches ErrorResponse::Text(t) && t@ == "404 Not Found"@),
        has_state && (method matches HttpMethod::Post) ==> (r matches ErrorResponse::Json(e)
            && !e.success && e.message@ == "404 Not Found"@),
        has_state && !(method matches HttpMethod::Post) ==> (r matches ErrorResponse::Html {
            message,
            url,
        } && message@ == "404 Not Found"@ && url@.len() == 0),
{
    get_error_response(has_state, method, "404 Not Found")
}

/// The admin error page: JSON for writes, the rendered page otherwise,
/// both under the fixed missing-page message.
pub fn error_page(method: HttpMethod) -> (r: ErrorResponse)
    ensures
        (method matches HttpMethod::Post) ==> (r matches ErrorResponse::Json(e) && !e.success
            && e.message@ == "页面不存在"@),
        !(method matches HttpMethod::Post) ==> (r matches ErrorResponse::Html { message, url }
            && message@ == "页面不存在"@ && url@.len() == 0),
{
    get_error_response(true, method, "页面不存在")
}

} // verus!
