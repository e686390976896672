//! The admin route table: the path registered under each route name.
//!
//! Handlers redirect by route name; the table resolves a name to the
//! path the router mounts it at.

use vstd::prelude::*;
use crate::strutil::str_equal;

verus! {

/// The path registered under a route name, if the name is known.
pub open spec fn spec_route_path(name: Seq<char>) -> Option<Seq<char>> {
    if name == "admin.index"@ {
        Some("/admin/index"@)
    } else if name == "admin.index-menu"@ {
        Some("/admin/index/menu"@)
    } else if name == "admin.index-console"@ {
        Some("/admin/index/console"@)
    } else if name == "admin.auth-captcha"@ {
        Some("/admin/auth/captcha"@)
    } else if name == "admin.auth-login"@ {
        Some("/admin/auth/login"@)
    } else if name == "admin.auth-logout"@ {
        Some("/admin/auth/logout"@)
    } else if name == "admin.user-index"@ {
        Some("/admin/user/index"@)
    } else if name == "admin.user-list"@ {
        Some("/admin/user/list"@)
    } else if name == "admin.user-detail"@ {
        Some("/admin/user/detail"@)
    } else if name == "admin.user-create"@ {
        Some("/admin/user/create"@)
    } else if name == "admin.user-update"@ {
        Some("/admin/user/update"@)
    } else if name == "admin.user-status"@ {
        Some("/admin/user/status"@)
    } else if name == "admin.user-update-password"@ {
        Some("/admin/user/update-password"@)
    } else if name == "admin.user-delete"@ {
        Some("/admin/user/delete"@)
    } else {
        None
    }
}

/// The login entry point resolves to its mounted path: handlers
/// redirect there by name.
pub proof fn lemma_route_login_path()
    ensures
        spec_route_path("admin.auth-login"@) == Some("/admin/auth/login"@),
{
    reveal_strlit("admin.auth-login");
    reveal_strlit("admin.index");
    reveal_strlit("admin.index-menu");
    reveal_strlit("admin.index-console");
    reveal_strlit("admin.auth-captcha");
    assert(("admin.auth-login"@).len() == 16);
    assert(("admin.index"@).len() == 11);
    assert(("admin.index-console"@).len() == 19);
    assert(("admin.auth-captcha"@).len() == 18);
    assert(("admin.index-menu"@)[6] == 'i');
    assert(("admin.auth-login"@)[6] == 'a');
    assert("admin.auth-login"@ != "admin.index-menu"@);
}

/// Resolves a route name to its mounted path.
pub fn route_path(name: &str) -> (r: Option<String>)
    ensures
        match r {
            Some(p) => spec_route_path(name@) == Some(p@),
            None => spec_route_path(name@) is None,
        },
{
    if str_equal(name, "admin.index") {
        Some(String::from_str("/admin/index"))
    } else if str_equal(name, "admin.index-menu") {
        Some(String::from_str("/admin/index/menu"))
    } else if str_equal(name, "admin.index-console") {
        Some(String::from_str("/admin/index/console"))
    } else if str_equal(name, "admin.auth-captcha") {
        Some(String::from_str("/admin/auth/captcha"))
    } else if str_equal(name, "admin.auth-login") {
        Some(String::from_str("/admin/auth/login"))
    } else if str_equal(name, "admin.auth-logout") {
        Some(String::from_str("/admin/auth/logout"))
    } else if str_equal(name, "admin.user-index") {
        Some(String::from_str("/admin/user/index"))
    } else if str_equal(name, "admin.user-list") {
        Some(String::from_str("/admin/user/list"))
    } else if str_equal(name, "admin.user-detail") {
        Some(String::from_str("/admin/user/detail"))
    } else if str_equal(name, "admin.user-create") {
        Some(String::from_str("/admin/user/create"))
    } else if str_equal(name, "admin.user-update") {
        Some(String::from_str("/admin/user/update"))
    } else if str_equal(name, "admin.user-status") {
        Some(String::from_str("/admin/user/status"))
    } else if str_equal(name, "admin.user-update-password") {
        Some(String::from_str("/admin/user/update-password"))
    } else if str_equal(name, "admin.user-delete") {
        Some(String::from_str("/admin/user/delete"))
    } else {
        None
    }
}

} // verus!
