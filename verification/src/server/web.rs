//! Which page or asset the web UI serves for a request.
use vstd::prelude::*;
use crate::paths::{path_extension, spec_path_extension};
use crate::text::{owned, str_eq};

verus! {

/// The answer to a page request.
#[derive(Debug, Clone)]
pub enum Page {
    /// Serve this file of the web directory (`Cache-Control: no-store`).
    File(String),
    /// Redirect (302) to this path.
    Redirect(String),
}

/// `p` serves the file `name`.
pub open spec fn serves(p: Page, name: Seq<char>) -> bool {
    p matches Page::File(f) && f@ == name
}

/// `p` redirects to `to`.
pub open spec fn redirects(p: Page, to: Seq<char>) -> bool {
    p matches Page::Redirect(t) && t@ == to
}

/// `/`: the setup page until an admin exists, then the app for a caller
/// the admin check lets in and the login page for anyone else.
pub fn root_page(admin_exists: bool, admitted: bool) -> (p: Page)
    ensures
        !admin_exists ==> serves(p, "setup.html"@),
        admin_exists && admitted ==> serves(p, "index.html"@),
        admin_exists && !admitted ==> serves(p, "login.html"@),
{
    if !admin_exists {
        return Page::File(owned("setup.html"));
    }
    if admitted {
        Page::File(owned("index.html"))
    } else {
        Page::File(owned("login.html"))
    }
}

/// `/login`: to setup until an admin exists, to `/` in anonymous mode,
/// otherwise the login page.
pub fn login_page(admin_exists: bool, anonymous: bool) -> (p: Page)
    ensures
        !admin_exists ==> redirects(p, "/setup"@),
        admin_exists && anonymous ==> redirects(p, "/"@),
        admin_exists && !anonymous ==> serves(p, "login.html"@),
{
    if !admin_exists {
        return Page::Redirect(owned("/setup"));
    }
    if anonymous {
        return Page::Redirect(owned("/"));
    }
    Page::File(owned("login.html"))
}

/// `/setup`: only until an admin exists; then to `/`.
pub fn setup_page(admin_exists: bool) -> (p: Page)
    ensures
        admin_exists ==> redirects(p, "/"@),
        !admin_exists ==> serves(p, "setup.html"@),
{
    if admin_exists {
        return Page::Redirect(owned("/"));
    }
    Page::File(owned("setup.html"))
}

/// A page behind the admin check (`settings.html`, `monitor.html`): to
/// setup until an admin exists, to the login for a caller the admin check refuses.
pub fn guarded_page(file: &str, admin_exists: bool, admitted: bool) -> (p: Page)
    ensures
        !admin_exists ==> redirects(p, "/setup"@),
        admin_exists && admitted ==> serves(p, file@),
        admin_exists && !admitted ==> redirects(p, "/login"@),
{
    if !admin_exists {
        return Page::Redirect(owned("/setup"));
    }
    if admitted {
        Page::File(owned(file))
    } else {
        Page::Redirect(owned("/login"))
    }
}

/// `/settings`.
pub fn settings_page(admin_exists: bool, admitted: bool) -> (p: Page)
    ensures
        !admin_exists ==> redirects(p, "/setup"@),
        admin_exists && admitted ==> serves(p, "settings.html"@),
        admin_exists && !admitted ==> redirects(p, "/login"@),
{
    guarded_page("settings.html", admin_exists, admitted)
}

/// `/monitor`.
pub fn monitor_page(admin_exists: bool, admitted: bool) -> (p: Page)
    ensures
        !admin_exists ==> redirects(p, "/setup"@),
        admin_exists && admitted ==> serves(p, "monitor.html"@),
        admin_exists && !admitted ==> redirects(p, "/login"@),
{
    guarded_page("monitor.html", admin_exists, admitted)
}

/// The static assets the UI may fetch by name; any other name is not found.
pub open spec fn spec_asset_allowed(name: Seq<char>) -> bool {
    name == "app.js"@ || name == "login.js"@ || name == "settings.js"@ || name == "setup.js"@
        || name == "monitor.js"@ || name == "style.css"@
}

/// Whether `name` is one of the static assets.
pub fn asset_allowed(name: &str) -> (r: bool)
    ensures
        r == spec_asset_allowed(name@),
{
    str_eq(name, "app.js") || str_eq(name, "login.js") || str_eq(name, "settings.js") || str_eq(
        name,
        "setup.js",
    ) || str_eq(name, "monitor.js") || str_eq(name, "style.css")
}

/// The content type of a served file, by its extension.
pub open spec fn spec_content_type(path: Seq<char>) -> Seq<char> {
    match spec_path_extension(path) {
        Some(e) => if e == "html"@ {
            "text/html; charset=utf-8"@
        } else if e == "js"@ {
            "application/javascript; charset=utf-8"@
        } else if e == "css"@ {
            "text/css; charset=utf-8"@
        } else if e == "json"@ {
            "application/json; charset=utf-8"@
        } else {
            "application/octet-stream"@
        },
        None => "application/octet-stream"@,
    }
}

/// The `Content-Type` of a file of the web directory.
pub fn content_type(path: &str) -> (r: &'static str)
    ensures
        r@ == spec_content_type(path@),
{
    match path_extension(path) {
        Some(e) => if str_eq(e.as_str(), "html") {
            "text/html; charset=utf-8"
        } else if str_eq(e.as_str(), "js") {
            "application/javascript; charset=utf-8"
        } else if str_eq(e.as_str(), "css") {
            "text/css; charset=utf-8"
        } else if str_eq(e.as_str(), "json") {
            "application/json; charset=utf-8"
        } else {
            "application/octet-stream"
        },
        None => "application/octet-stream",
    }
}

/// The files the UI pages load: their scripts and the stylesheet.
pub open spec fn ui_assets() -> Set<Seq<char>> {
    set!["app.js"@, "login.js"@, "settings.js"@, "setup.js"@, "monitor.js"@, "style.css"@]
}

/// Every file the UI pages load is served, the stylesheet among them, and
/// nothing else is served by name.
pub proof fn law_ui_assets_served(name: Seq<char>)
    ensures
        ui_assets().contains(name) <==> spec_asset_allowed(name),
        spec_asset_allowed("style.css"@),
{
}

} // verus!
