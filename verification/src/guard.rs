//! The access guard in front of the admin routes.
//!
//! Every request to the admin scope passes here first: requests to the
//! unauthenticated entry points go through by path prefix, anything
//! else requires an authenticated session, and a rejected request is
//! answered without reaching its handler — as JSON for writes, as an
//! error page with a login redirect for reads.

use vstd::prelude::*;
use crate::envelope::{error_envelope, Envelope};
use crate::routes::{lemma_route_login_path, route_path};
use crate::session::{spec_logged_in, SessionData};
use crate::strutil::str_starts_with;

verus! {

/// The request method, as far as the guard distinguishes it.
#[derive(Clone, Copy)]
pub enum HttpMethod {
    Get,
    Post,
    Other,
}

/// Whether a path may be visited without an authenticated session:
/// the challenge and login entry points, matched by prefix.
pub open spec fn spec_guard_allowed(path: Seq<char>) -> bool {
    "/admin/auth/captcha"@.is_prefix_of(path) || "/admin/auth/login"@.is_prefix_of(path)
}

/// What the guard does with a request.
pub enum GuardDecision {
    /// Hand the request to its handler.
    Pass,
    /// Short-circuit a write with a JSON error body.
    DenyJson(Envelope),
    /// Short-circuit a read with an error page and a login redirect.
    DenyHtml { message: String, login_url: String },
}

/// Guards a request: it passes exactly when its path is an allowed
/// entry point or the session is authenticated; otherwise it is denied
/// in the form its method calls for, with the fixed please-log-in
/// message and the login path as redirect.
pub fn auth(path: &str, method: HttpMethod, session: &SessionData) -> (r: GuardDecision)
    ensures
        (r is Pass) == (spec_guard_allowed(path@) || spec_logged_in(*session)),
        !(spec_guard_allowed(path@) || spec_logged_in(*session)) && (method matches
        HttpMethod::Post) ==> (r matches GuardDecision::DenyJson(e) && !e.success && e.message@
            == "请先登陆"@),
        !(spec_guard_allowed(path@) || spec_logged_in(*session)) && !(method matches
        HttpMethod::Post) ==> (r matches GuardDecision::DenyHtml { message, login_url } && message@
            == "请先登陆"@ && login_url@ == "/admin/auth/login"@),
{
    if str_starts_with(path, "/admin/auth/captcha") || str_starts_with(path, "/admin/auth/login") {
        return GuardDecision::Pass;
    }
    if session.logged_in() {
        return GuardDecision::Pass;
    }
    proof {
        lemma_route_login_path();
    }
    let login_url = match route_path("admin.auth-login") {
        Some(p) => p,
        None => String::new(),
    };
    match method {
        HttpMethod::Post => GuardDecision::DenyJson(error_envelope("请先登陆")),
        _ => GuardDecision::DenyHtml { message: String::from_str("请先登陆"), login_url },
    }
}

} // verus!
