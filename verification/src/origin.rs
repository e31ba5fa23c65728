//! The origin a webview is confined to: scheme, host and port of where its UI
//! loaded from.
//!
//! A window locked to an origin may only navigate to URLs of that origin and
//! to `blob:` URLs minted by it; camera and microphone requests are granted
//! only to pages on it. The one origin that has to be predicted rather than
//! observed is the one the legacy app websocket allows, see [`app_origin`].

use vstd::prelude::*;
use crate::plugin::Error;
use crate::text::{decimal, decimal_string};
use crate::url::{
    Url, opt_view, url_parses, url_scheme, url_host, url_port, url_path,
    url_serialization, url_parse_error, url_relative, known_default_port,
};

verus! {

broadcast use vstd::string::group_string_axioms;

/// `scheme://host[:port]`, as a browser writes an `Origin` header.
pub open spec fn origin_text(scheme: Seq<char>, host: Option<Seq<char>>, port: Option<u16>) -> Seq<char> {
    let base = scheme + "://"@ + match host {
        Some(h) => h,
        None => Seq::<char>::empty(),
    };
    match port {
        Some(p) => base + ":"@ + decimal(p as nat),
        None => base,
    }
}

/// The explicit port, else the known default port of the scheme.
pub open spec fn effective_port(scheme: Seq<char>, port: Option<u16>) -> Option<u16> {
    match port {
        Some(p) => Some(p),
        None => known_default_port(scheme),
    }
}

/// Whether `url` has the scheme, host and port of `origin`.
pub open spec fn same_origin_spec(url: Url, origin: Url) -> bool {
    &&& url.scheme@ == origin.scheme@
    &&& opt_view(url.host) == opt_view(origin.host)
    &&& url.port_or_default() == origin.port_or_default()
}

/// Whether the URL parsed from `input` has the scheme, host and port of
/// `origin` (false where `input` does not parse).
pub open spec fn parsed_same_origin(input: Seq<char>, origin: Url) -> bool {
    &&& url_parses(input)
    &&& url_scheme(input) == origin.scheme@
    &&& url_host(input) == opt_view(origin.host)
    &&& effective_port(url_scheme(input), url_port(input)) == origin.port_or_default()
}

/// Whether a window locked to `origin` may navigate to `target`.
pub open spec fn navigation_allowed_spec(target: Url, origin: Url) -> bool {
    ||| same_origin_spec(target, origin)
    ||| (target.scheme@ == "blob"@ && parsed_same_origin(target.path@, origin))
}

impl Url {
    /// This URL's origin, as a browser writes it in an `Origin` header.
    pub open spec fn origin_text(self) -> Seq<char> {
        origin_text(self.scheme@, opt_view(self.host), self.port)
    }
}

/// The origin, as an `Origin` header writes it, of the URL parsed from `input`.
pub open spec fn parsed_origin_text(input: Seq<char>) -> Seq<char> {
    origin_text(url_scheme(input), url_host(input), url_port(input))
}

/// Whether `url` has the same scheme, host and port as `origin`; a port that
/// is the scheme's default counts whether or not it is written.
///
/// Compared part by part, since a non-special scheme (`tauri:`, `happ:`) has an
/// opaque origin in the `url` crate that is never equal to anything.
pub fn same_origin(url: &Url, origin: &Url) -> (r: bool)
    ensures
        r == same_origin_spec(*url, *origin),
{
    let same_host = match (&url.host, &origin.host) {
        (Some(a), Some(b)) => crate::text::str_equal(a.as_str(), b.as_str()),
        (None, None) => true,
        _ => false,
    };
    crate::text::str_equal(url.scheme.as_str(), origin.scheme.as_str()) && same_host
        && url.port_or_known_default() == origin.port_or_known_default()
}

/// Whether a window locked to `origin` may navigate to `target`.
///
/// Same-origin URLs, and `blob:` URLs minted by that origin
/// (`blob:<origin>/<id>`), are allowed. `data:` URLs have no origin and are
/// refused.
pub fn navigation_allowed(target: &Url, origin: &Url) -> (r: bool)
    ensures
        r == navigation_allowed_spec(*target, *origin),
{
    if same_origin(target, origin) {
        return true;
    }
    proof {
        reveal_strlit("blob");
    }
    if !crate::text::str_equal(target.scheme.as_str(), "blob") {
        return false;
    }
    match Url::parse(target.path.as_str()) {
        Some(inner) => {
            let r = same_origin(&inner, origin);
            proof {
                if r {
                    assert(parsed_same_origin(target.path@, *origin));
                }
                if parsed_same_origin(target.path@, *origin) {
                    assert(same_origin_spec(inner, *origin));
                }
            }
            r
        },
        None => false,
    }
}

/// `origin` as a browser puts it in an `Origin` header: scheme, host and any
/// explicit port, no trailing slash.
pub fn origin_header_value(origin: &Url) -> (r: String)
    ensures
        r@ == origin.origin_text(),
{
    let mut value = String::from_str(origin.scheme.as_str());
    proof {
        reveal_strlit("://");
        reveal_strlit(":");
    }
    value.append("://");
    match &origin.host {
        Some(h) => value.append(h.as_str()),
        None => {},
    }
    match origin.port {
        Some(p) => {
            value.append(":");
            let digits = decimal_string(p as u64);
            value.append(digits.as_str());
        },
        None => {},
    }
    value
}

/// `url` reduced to its origin: scheme, host and explicit port, no path.
///
/// `None` only where the parser rejects that origin text.
pub fn origin_of(url: &Url) -> (r: Option<Url>)
    ensures
        r is Some <==> url_parses(url.origin_text()),
        r matches Some(o) ==> o.parsed_from(url.origin_text()),
{
    let text = origin_header_value(url);
    Url::parse(text.as_str())
}

/// What a window locked to its first origin does with a navigation.
#[derive(Debug)]
pub enum NavigationVerdict {
    /// Refused.
    Deny,
    /// Allowed, within the origin already recorded for the window.
    Allow,
    /// Allowed as the window's first navigation: its origin is recorded and the
    /// window is locked to it from now on.
    AllowAndRecord(Url),
}

/// What a window does with a navigation to the URL parsed from `target`, given
/// the origin recorded for it, if any.
pub open spec fn navigation_verdict_spec(recorded: Option<Url>, target: Seq<char>) -> Option<bool> {
    if !url_parses(target) {
        Some(false)
    } else {
        match recorded {
            Some(o) => Some(
                parsed_same_origin(target, o)
                    || (url_scheme(target) == "blob"@ && match url_path(target) {
                        Some(p) => parsed_same_origin(p, o),
                        None => false,
                    })
            ),
            None => None,
        }
    }
}

/// Decide a window's navigation to `target`: the first navigation that parses
/// is allowed and records its origin; every later one is allowed only where
/// [`navigation_allowed`] allows it for the recorded origin. A target that does
/// not parse is refused, and so is a first navigation whose origin does not.
pub fn lock_navigation(recorded: Option<&Url>, target: &str) -> (r: NavigationVerdict)
    ensures
        !url_parses(target@) ==> r is Deny,
        url_parses(target@) && recorded is Some ==> match r {
            NavigationVerdict::Allow => navigation_verdict_spec(opt_deref(recorded), target@) == Some(true),
            NavigationVerdict::Deny => navigation_verdict_spec(opt_deref(recorded), target@) == Some(false),
            NavigationVerdict::AllowAndRecord(_) => false,
        },
        r is Allow ==> recorded is Some && url_parses(target@) && (
            (url_scheme(target@) == recorded.unwrap().scheme@
                && url_host(target@) == opt_view(recorded.unwrap().host)
                && effective_port(url_scheme(target@), url_port(target@)) == recorded.unwrap().port_or_default())
            || (url_scheme(target@) == "blob"@ && url_path(target@) is Some
                && url_parses(url_path(target@).unwrap())
                && url_scheme(url_path(target@).unwrap()) == recorded.unwrap().scheme@
                && url_host(url_path(target@).unwrap()) == opt_view(recorded.unwrap().host)
                && effective_port(url_scheme(url_path(target@).unwrap()), url_port(url_path(target@).unwrap()))
                    == recorded.unwrap().port_or_default())),
        url_parses(target@) && recorded is None ==> match r {
            NavigationVerdict::AllowAndRecord(o) => {
                let t = origin_text(url_scheme(target@), url_host(target@), url_port(target@));
                url_parses(t) && o.parsed_from(t)
            },
            NavigationVerdict::Deny => !url_parses(origin_text(url_scheme(target@), url_host(target@), url_port(target@))),
            NavigationVerdict::Allow => false,
        },
{
    let parsed = match Url::parse(target) {
        Some(u) => u,
        None => return NavigationVerdict::Deny,
    };
    match recorded {
        Some(origin) => {
            if navigation_allowed(&parsed, origin) {
                NavigationVerdict::Allow
            } else {
                NavigationVerdict::Deny
            }
        },
        None => match origin_of(&parsed) {
            Some(o) => NavigationVerdict::AllowAndRecord(o),
            None => NavigationVerdict::Deny,
        },
    }
}

/// What an app's webview is pointed at.
#[derive(Debug)]
pub enum WebviewTarget {
    /// A path served by the app itself.
    App(String),
    /// An external URL.
    External(Url),
    /// A URL on a custom protocol registered by the app.
    CustomProtocol(Url),
    /// Any other kind of target, by its debug text.
    Other(String),
}

/// How the app serves its UI on this platform and build.
#[derive(Debug)]
pub struct AppUrlContext {
    /// A dev build.
    pub is_dev: bool,
    /// Android or iOS.
    pub mobile: bool,
    /// Windows or Android, where custom schemes are served as
    /// `http://<scheme>.<host>`.
    pub windows_or_android: bool,
    /// The configured dev server URL, if any.
    pub dev_url: Option<Url>,
    /// The configured frontend when it is a URL, if any.
    pub frontend_dist_url: Option<Url>,
}

/// Where embedded assets are served: `tauri://localhost`, or
/// `http://tauri.localhost` on Windows and Android.
pub open spec fn tauri_protocol_text(ctx: AppUrlContext) -> Seq<char> {
    if ctx.windows_or_android {
        "http://tauri.localhost"@
    } else {
        "tauri://localhost"@
    }
}

/// The URL the app's UI is served from when one is configured: the dev server
/// in a dev build, else the frontend URL.
pub open spec fn configured_app_url(ctx: AppUrlContext) -> Option<Url> {
    if ctx.is_dev {
        ctx.dev_url
    } else {
        ctx.frontend_dist_url
    }
}

/// Whether a host is on the local network: the domain `localhost`, or any IP
/// address.
pub open spec fn local_network_host(domain: Option<Seq<char>>, host: Option<Seq<char>>) -> bool {
    match domain {
        Some(d) => d == "localhost"@,
        None => host is Some,
    }
}

/// Whether a mobile dev build loads `url` through the app protocol instead.
pub open spec fn proxied_on_mobile_spec(ctx: AppUrlContext, url: Url) -> bool {
    ctx.is_dev && ctx.mobile && local_network_host(opt_view(url.domain), opt_view(url.host))
}

/// The origin text the app protocol URL gives, or the text that did not parse.
pub open spec fn tauri_origin(ctx: AppUrlContext) -> Result<Seq<char>, Seq<char>> {
    let t = tauri_protocol_text(ctx);
    if url_parses(t) {
        Ok(parsed_origin_text(t))
    } else {
        Err(t)
    }
}

/// The origin text a webview showing `target` loads from, or the detail of the
/// error the resolution fails with.
pub open spec fn resolved_origin(ctx: AppUrlContext, target: WebviewTarget) -> Result<Seq<char>, Seq<char>> {
    match target {
        WebviewTarget::External(u) => {
            let app_serialization = match configured_app_url(ctx) {
                Some(a) => Some(a.serialization@),
                None => if url_parses(tauri_protocol_text(ctx)) {
                    Some(url_serialization(tauri_protocol_text(ctx)))
                } else {
                    None
                },
            };
            match app_serialization {
                None => Err(tauri_protocol_text(ctx)),
                Some(s) => if proxied_on_mobile_spec(ctx, u) && url_relative(s, u.serialization@) is Some {
                    tauri_origin(ctx)
                } else {
                    Ok(u.origin_text())
                },
            }
        },
        WebviewTarget::CustomProtocol(u) => {
            if ctx.windows_or_android {
                let t = "http://"@ + u.scheme@ + "."@ + match opt_view(u.host) {
                    Some(h) => h,
                    None => Seq::<char>::empty(),
                };
                if url_parses(t) {
                    Ok(parsed_origin_text(t))
                } else {
                    Err(u.serialization@ + ": "@ + url_parse_error(t))
                }
            } else {
                Ok(u.origin_text())
            }
        },
        WebviewTarget::App(_) => match configured_app_url(ctx) {
            Some(a) => if proxied_on_mobile_spec(ctx, a) {
                tauri_origin(ctx)
            } else {
                Ok(a.origin_text())
            },
            None => tauri_origin(ctx),
        },
        WebviewTarget::Other(d) => Err(d@),
    }
}

/// Whether a mobile dev build loads `url` through the app protocol instead: a
/// `localhost` or IP-address dev server.
pub fn proxied_on_mobile(ctx: &AppUrlContext, url: &Url) -> (r: bool)
    ensures
        r == proxied_on_mobile_spec(*ctx, *url),
{
    proof {
        reveal_strlit("localhost");
    }
    let local_network = match (&url.domain, &url.host) {
        (Some(domain), _) => crate::text::str_equal(domain.as_str(), "localhost"),
        (None, Some(_)) => true,
        (None, None) => false,
    };
    ctx.is_dev && ctx.mobile && local_network
}

/// The app protocol URL, or the text that did not parse.
fn tauri_protocol_url(ctx: &AppUrlContext) -> (r: Result<Url, String>)
    ensures
        r is Ok <==> url_parses(tauri_protocol_text(*ctx)),
        r matches Ok(u) ==> u.parsed_from(tauri_protocol_text(*ctx)),
        r matches Err(e) ==> e@ == tauri_protocol_text(*ctx),
{
    let text = if ctx.windows_or_android {
        "http://tauri.localhost"
    } else {
        "tauri://localhost"
    };
    match Url::parse(text) {
        Some(u) => Ok(u),
        None => Err(String::from_str(text)),
    }
}

/// The origin text of the app protocol URL, or the text that did not parse.
fn tauri_origin_text(ctx: &AppUrlContext) -> (r: Result<String, String>)
    ensures
        match tauri_origin(*ctx) {
            Ok(t) => r matches Ok(s) && s@ == t,
            Err(t) => r matches Err(s) && s@ == t,
        },
{
    match tauri_protocol_url(ctx) {
        Ok(u) => Ok(origin_header_value(&u)),
        Err(e) => Err(e),
    }
}

/// The origin text a webview showing `target` loads from, or the detail of the
/// error its resolution fails with.
pub fn resolve_origin_text(ctx: &AppUrlContext, target: &WebviewTarget) -> (r: Result<String, String>)
    ensures
        match resolved_origin(*ctx, *target) {
            Ok(t) => r matches Ok(s) && s@ == t,
            Err(t) => r matches Err(s) && s@ == t,
        },
{
    match target {
        WebviewTarget::External(u) => {
            let app_url = match configured_app_url_exec(ctx) {
                Some(a) => a,
                None => match tauri_protocol_url(ctx) {
                    Ok(t) => t,
                    Err(e) => return Err(e),
                },
            };
            if proxied_on_mobile(ctx, u) && app_url.make_relative(u).is_some() {
                tauri_origin_text(ctx)
            } else {
                Ok(origin_header_value(u))
            }
        },
        WebviewTarget::CustomProtocol(u) => {
            if ctx.windows_or_android {
                proof {
                    reveal_strlit("http://");
                    reveal_strlit(".");
                    reveal_strlit(": ");
                }
                let mut text = String::from_str("http://");
                text.append(u.scheme.as_str());
                text.append(".");
                match &u.host {
                    Some(h) => text.append(h.as_str()),
                    None => {},
                }
                match Url::try_parse(text.as_str()) {
                    Ok(parsed) => Ok(origin_header_value(&parsed)),
                    Err(e) => {
                        let mut detail = String::from_str(u.as_str());
                        detail.append(": ");
                        detail.append(e.as_str());
                        Err(detail)
                    },
                }
            } else {
                Ok(origin_header_value(u))
            }
        },
        WebviewTarget::App(_) => match configured_app_url_exec(ctx) {
            Some(a) => if proxied_on_mobile(ctx, &a) {
                tauri_origin_text(ctx)
            } else {
                Ok(origin_header_value(&a))
            },
            None => tauri_origin_text(ctx),
        },
        WebviewTarget::Other(d) => Err(d.clone()),
    }
}

/// The configured URL the app's UI is served from, if any.
fn configured_app_url_exec(ctx: &AppUrlContext) -> (r: Option<Url>)
    ensures
        r == configured_app_url(*ctx),
{
    let served_from = if ctx.is_dev { &ctx.dev_url } else { &ctx.frontend_dist_url };
    match served_from {
        Some(u) => Some(u.duplicate()),
        None => None,
    }
}

/// The origin a webview showing `target` loads from, predicted from how the
/// app serves its UI: the dev server in a dev build (through the app protocol
/// on mobile when it is on the local network), the frontend URL, else the app
/// protocol; custom schemes become `http://<scheme>.<host>` on Windows and
/// Android. Only the legacy app websocket needs this, since its `Origin`
/// allow-list must exist before the page does.
///
/// Fails with [`Error::UnsupportedWebviewUrl`] for a target it cannot resolve,
/// and with the text that did not parse where the URL parser rejects one.
pub fn app_origin(ctx: &AppUrlContext, target: &WebviewTarget) -> (r: Result<Url, Error>)
    ensures
        match resolved_origin(*ctx, *target) {
            Ok(t) => if url_parses(t) {
                r matches Ok(o) && o.parsed_from(t)
            } else {
                r matches Err(Error::UnsupportedWebviewUrl(d)) && d@ == t
            },
            Err(d) => r matches Err(Error::UnsupportedWebviewUrl(m)) && m@ == d,
        },
        !ctx.is_dev && ctx.frontend_dist_url is Some && target is App
            && url_parses(ctx.frontend_dist_url.unwrap().origin_text())
            ==> (r matches Ok(o) && o.parsed_from(ctx.frontend_dist_url.unwrap().origin_text())),
        ctx.is_dev && !ctx.mobile && ctx.dev_url is Some && target is App
            && url_parses(ctx.dev_url.unwrap().origin_text())
            ==> (r matches Ok(o) && o.parsed_from(ctx.dev_url.unwrap().origin_text())),
{
    match resolve_origin_text(ctx, target) {
        Ok(text) => match Url::parse(text.as_str()) {
            Some(o) => Ok(o),
            None => Err(Error::UnsupportedWebviewUrl(text)),
        },
        Err(d) => Err(Error::UnsupportedWebviewUrl(d)),
    }
}

/// How a webview permission request is answered.
#[derive(Debug, Clone, Copy, PartialEq, Eq)]
pub enum PermissionDecision {
    /// Left to the webview's default handler.
    Default,
    /// Granted.
    Allow,
    /// Refused.
    Deny,
}

/// The URL an optional reference points at.
pub open spec fn opt_deref(o: Option<&Url>) -> Option<Url> {
    match o {
        Some(u) => Some(*u),
        None => None,
    }
}

/// What a camera/microphone request is answered, given the page asking and
/// the origin recorded for its webview.
pub open spec fn media_decision_spec(is_user_media: bool, page: Option<Url>, origin: Option<Url>) -> PermissionDecision {
    if !is_user_media {
        PermissionDecision::Default
    } else {
        match (page, origin) {
            (Some(p), Some(o)) => if same_origin_spec(p, o) {
                PermissionDecision::Allow
            } else {
                PermissionDecision::Deny
            },
            _ => PermissionDecision::Deny,
        }
    }
}

/// Answer a permission request: requests other than user media keep the
/// default handling; user media is granted only to a page on the origin
/// recorded for its webview, and refused when either is unknown.
pub fn media_decision(is_user_media: bool, page: Option<&Url>, origin: Option<&Url>) -> (r: PermissionDecision)
    ensures
        r == media_decision_spec(is_user_media, opt_deref(page), opt_deref(origin)),
{
    if !is_user_media {
        return PermissionDecision::Default;
    }
    match (page, origin) {
        (Some(p), Some(o)) => if same_origin(p, o) {
            PermissionDecision::Allow
        } else {
            PermissionDecision::Deny
        },
        _ => PermissionDecision::Deny,
    }
}

/// Answer a permission request from a webview whose page is at `page_uri`
/// (parsed here; an unparsable page is unknown).
pub fn media_permission(is_user_media: bool, page_uri: Option<&str>, origin: Option<&Url>) -> (r: PermissionDecision)
    ensures
        !is_user_media ==> r == PermissionDecision::Default,
        is_user_media ==> (r == PermissionDecision::Allow <==> (
            page_uri matches Some(t) && origin matches Some(o) && parsed_same_origin(t@, *o))),
        is_user_media ==> r != PermissionDecision::Default,
{
    let page = match page_uri {
        Some(t) => Url::parse(t),
        None => None,
    };
    let r = match &page {
        Some(p) => media_decision(is_user_media, Some(p), origin),
        None => media_decision(is_user_media, None, origin),
    };
    proof {
        if is_user_media && page_uri is Some && origin is Some {
            let t = page_uri.unwrap();
            if parsed_same_origin(t@, *origin.unwrap()) {
                assert(page is Some);
            }
        }
    }
    r
}

} // verus!

verus! {

/// Having the same origin is an equivalence: every URL is on its own origin,
/// and the relation is symmetric and transitive.
pub proof fn same_origin_is_an_equivalence(a: Url, b: Url, c: Url)
    ensures
        same_origin_spec(a, a),
        same_origin_spec(a, b) ==> same_origin_spec(b, a),
        same_origin_spec(a, b) && same_origin_spec(b, c) ==> same_origin_spec(a, c),
{
}

/// A window locked to `origin` is allowed a navigation exactly when the target
/// parses and has the origin's scheme, host and port (a port left out counting
/// as the scheme's default), or is a `blob:` URL whose inner URL has them. In
/// particular an allowed target is on the origin's port.
pub proof fn locked_navigation_stays_on_the_origin(origin: Url, target: Seq<char>)
    ensures
        navigation_verdict_spec(Some(origin), target) is Some,
        navigation_verdict_spec(Some(origin), target) == Some(true) <==> url_parses(target) && (
            (url_scheme(target) == origin.scheme@
                && url_host(target) == opt_view(origin.host)
                && effective_port(url_scheme(target), url_port(target)) == origin.port_or_default())
            || (url_scheme(target) == "blob"@ && url_path(target) is Some
                && url_parses(url_path(target).unwrap())
                && url_scheme(url_path(target).unwrap()) == origin.scheme@
                && url_host(url_path(target).unwrap()) == opt_view(origin.host)
                && effective_port(url_scheme(url_path(target).unwrap()), url_port(url_path(target).unwrap()))
                    == origin.port_or_default())),
{
}

/// An app page loads from the frontend URL in a build that is not a dev build,
/// and from the dev server in a desktop dev build: its origin is that URL's
/// scheme, host and explicit port. With no URL configured for the build it
/// loads through the app protocol.
pub proof fn app_pages_load_from_the_configured_url(ctx: AppUrlContext, path: String)
    ensures
        !ctx.is_dev && ctx.frontend_dist_url is Some ==> resolved_origin(ctx, WebviewTarget::App(path))
            == Ok::<Seq<char>, Seq<char>>(origin_text(ctx.frontend_dist_url.unwrap().scheme@,
                opt_view(ctx.frontend_dist_url.unwrap().host), ctx.frontend_dist_url.unwrap().port)),
        ctx.is_dev && !ctx.mobile && ctx.dev_url is Some ==> resolved_origin(ctx, WebviewTarget::App(path))
            == Ok::<Seq<char>, Seq<char>>(origin_text(ctx.dev_url.unwrap().scheme@,
                opt_view(ctx.dev_url.unwrap().host), ctx.dev_url.unwrap().port)),
        (if ctx.is_dev { ctx.dev_url is None } else { ctx.frontend_dist_url is None })
            ==> resolved_origin(ctx, WebviewTarget::App(path)) == tauri_origin(ctx),
{
}

/// A webview on an external URL loads from that URL's own origin unless a
/// mobile dev build proxies it, and one on a custom-protocol URL from that URL's
/// origin outside Windows and Android, where it becomes
/// `http://<scheme>.<host>`.
pub proof fn other_pages_load_from_their_own_origin(ctx: AppUrlContext, u: Url)
    ensures
        !(ctx.is_dev && ctx.mobile) && resolved_origin(ctx, WebviewTarget::External(u)) is Ok
            ==> resolved_origin(ctx, WebviewTarget::External(u))
                == Ok::<Seq<char>, Seq<char>>(origin_text(u.scheme@, opt_view(u.host), u.port)),
        !ctx.windows_or_android ==> resolved_origin(ctx, WebviewTarget::CustomProtocol(u))
            == Ok::<Seq<char>, Seq<char>>(origin_text(u.scheme@, opt_view(u.host), u.port)),
        ctx.windows_or_android ==> ({
            let t = "http://"@ + u.scheme@ + "."@ + match opt_view(u.host) {
                Some(h) => h,
                None => Seq::<char>::empty(),
            };
            url_parses(t) ==> resolved_origin(ctx, WebviewTarget::CustomProtocol(u))
                == Ok::<Seq<char>, Seq<char>>(origin_text(url_scheme(t), url_host(t), url_port(t)))
        }),
{
}

/// A window may always navigate within its own origin.
pub proof fn same_origin_navigation_is_allowed(target: Url, origin: Url)
    requires
        same_origin_spec(target, origin),
    ensures
        navigation_allowed_spec(target, origin),
{
}

/// A top-level `data:` page is refused by a window locked to any origin that is
/// not itself a `data:` origin.
pub proof fn data_urls_are_refused(target: Url, origin: Url)
    requires
        target.scheme@ == "data"@,
        origin.scheme@ != "data"@,
    ensures
        !navigation_allowed_spec(target, origin),
{
    reveal_strlit("data");
    reveal_strlit("blob");
    assert("data"@ != "blob"@) by {
        assert("data"@[0] != "blob"@[0]);
    }
}

} // verus!
