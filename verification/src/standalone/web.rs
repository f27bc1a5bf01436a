//! Which page or asset the single-database server's UI serves.
use vstd::prelude::*;
use crate::paths::{path_extension, spec_path_extension};
use crate::server::web::{Page, redirects, serves};
use crate::text::{owned, str_eq};

verus! {

/// `/`: the app for the admin, the login page for anyone else.
pub fn root(admitted: bool) -> (p: Page)
    ensures
        admitted ==> serves(p, "index.html"@),
        !admitted ==> serves(p, "login.html"@),
{
    if admitted {
        Page::File(owned("index.html"))
    } else {
        Page::File(owned("login.html"))
    }
}

/// `/login`: always the login page.
pub fn login_page() -> (p: Page)
    ensures
        serves(p, "login.html"@),
{
    Page::File(owned("login.html"))
}

/// `/settings`: for the admin; anyone else is sent to the login.
pub fn settings_page(admitted: bool) -> (p: Page)
    ensures
        admitted ==> serves(p, "settings.html"@),
        !admitted ==> redirects(p, "/login"@),
{
    if admitted {
        Page::File(owned("settings.html"))
    } else {
        Page::Redirect(owned("/login"))
    }
}

/// The static assets the UI may fetch by name.
pub open spec fn spec_asset_allowed(name: Seq<char>) -> bool {
    name == "app.js"@ || name == "login.js"@ || name == "settings.js"@ || name == "style.css"@
}

/// Whether `name` is one of the static assets.
pub fn asset_allowed(name: &str) -> (r: bool)
    ensures
        r == spec_asset_allowed(name@),
{
    str_eq(name, "app.js") || str_eq(name, "login.js") || str_eq(name, "settings.js") || str_eq(
        name,
        "style.css",
    )
}

/// The content type of a served file, by its extension.
pub open spec fn spec_content_type(path: Seq<char>) -> Seq<char> {
    match spec_path_extension(path) {
        Some(e) => if e == "html"@ {
            "text/html; charset=utf-8"@
        } else if e == "js"@ {
            "application/javascript; charset=utf-8"@
        } else if e == "css"@ {
            "text/css; charset=utf-8"@
        } else {
            "application/octet-stream"@
        },
        None => "application/octet-stream"@,
    }
}

/// The `Content-Type` of a file of the web directory.
pub fn content_type(path: &str) -> (r: &'static str)
    ensures
        r@ == spec_content_type(path@),
{
    match path_extension(path) {
        Some(e) => if str_eq(e.as_str(), "html") {
            "text/html; charset=utf-8"
        } else if str_eq(e.as_str(), "js") {
            "application/javascript; charset=utf-8"
        } else if str_eq(e.as_str(), "css") {
            "text/css; charset=utf-8"
        } else {
            "application/octet-stream"
        },
        None => "application/octet-stream",
    }
}

} // verus!
