//! Parsed URLs, as the `url` crate (through `url2`) parses them.
//!
//! [`Url`] holds, as plain text and numbers, the parts of a parsed URL that the
//! runtime reads. [`Url::parse`] is the one place that parses.

use vstd::prelude::*;

verus! {

/// Whether the `url` crate parses `input` as an absolute URL.
pub uninterp spec fn url_parses(input: Seq<char>) -> bool;

/// The serialization of the URL parsed from `input` (`Url::as_str`).
pub uninterp spec fn url_serialization(input: Seq<char>) -> Seq<char>;

/// The lower-cased scheme of the URL parsed from `input` (`Url::scheme`).
pub uninterp spec fn url_scheme(input: Seq<char>) -> Seq<char>;

/// The host of the URL parsed from `input`, if it has one (`Url::host_str`).
pub uninterp spec fn url_host(input: Seq<char>) -> Option<Seq<char>>;

/// The host of the URL parsed from `input` when it is a domain name rather
/// than an IP address (`Url::domain`).
pub uninterp spec fn url_domain(input: Seq<char>) -> Option<Seq<char>>;

/// The explicit, non-default port of the URL parsed from `input` (`Url::port`).
pub uninterp spec fn url_port(input: Seq<char>) -> Option<u16>;

/// The path of the URL parsed from `input` (`Url::path`).
pub uninterp spec fn url_path(input: Seq<char>) -> Option<Seq<char>>;

/// The text of the error (`url::ParseError`'s `Display`) with which the `url`
/// crate rejects `input`.
pub uninterp spec fn url_parse_error(input: Seq<char>) -> Seq<char>;

/// What `Url::make_relative` gives for the URLs serialized as `base` and `url`
/// (`None` also when either text does not parse).
pub uninterp spec fn url_relative(base: Seq<char>, url: Seq<char>) -> Option<Seq<char>>;

/// A parsed URL: its serialization and the parts the runtime compares.
#[derive(Clone, Debug)]
pub struct Url {
    /// The whole URL as the parser serializes it.
    pub serialization: String,
    /// The lower-cased scheme, without the `:`.
    pub scheme: String,
    /// The host, if any.
    pub host: Option<String>,
    /// The host when it is a domain name; `None` for IP addresses.
    pub domain: Option<String>,
    /// The port, when one other than the scheme's default is given.
    pub port: Option<u16>,
    /// The path.
    pub path: String,
}

/// `o` with each string replaced by its characters.
pub open spec fn opt_view(o: Option<String>) -> Option<Seq<char>> {
    match o {
        Some(s) => Some(s@),
        None => None,
    }
}

/// The default port the `url` crate knows for `scheme`: 80 for `http` and `ws`,
/// 443 for `https` and `wss`, 21 for `ftp`, and none for every other scheme.
pub open spec fn known_default_port(scheme: Seq<char>) -> Option<u16> {
    if scheme == "http"@ || scheme == "ws"@ {
        Some(80u16)
    } else if scheme == "https"@ || scheme == "wss"@ {
        Some(443u16)
    } else if scheme == "ftp"@ {
        Some(21u16)
    } else {
        None
    }
}

impl Url {
    /// Whether this value is what the parser gives for `input`.
    pub open spec fn parsed_from(self, input: Seq<char>) -> bool {
        &&& url_parses(input)
        &&& self.serialization@ == url_serialization(input)
        &&& self.scheme@ == url_scheme(input)
        &&& opt_view(self.host) == url_host(input)
        &&& opt_view(self.domain) == url_domain(input)
        &&& self.port == url_port(input)
        &&& Some(self.path@) == url_path(input)
    }

    /// The explicit port, else the scheme's known default port
    /// (`Url::port_or_known_default`).
    pub open spec fn port_or_default(self) -> Option<u16> {
        match self.port {
            Some(p) => Some(p),
            None => known_default_port(self.scheme@),
        }
    }

    /// Parse `input` as an absolute URL, or `None` if the `url` crate rejects it.
    pub fn parse(input: &str) -> (r: Option<Url>)
        ensures
            r is Some <==> url_parses(input@),
            r matches Some(u) ==> u.parsed_from(input@),
    {
        match parse_url(input) {
            Ok(u) => Some(u),
            Err(_) => None,
        }
    }

    /// Parse `input` as an absolute URL, or give the parser's error text.
    pub fn try_parse(input: &str) -> (r: Result<Url, String>)
        ensures
            r is Ok <==> url_parses(input@),
            r matches Ok(u) ==> u.parsed_from(input@),
            r matches Err(e) ==> e@ == url_parse_error(input@),
    {
        parse_url(input)
    }

    /// This URL relative to `self` as a base (`Url::make_relative`): `None`
    /// where `self` cannot be a base for it.
    pub fn make_relative(&self, url: &Url) -> (r: Option<String>)
        ensures
            opt_view(r) == url_relative(self.serialization@, url.serialization@),
    {
        relative_url(self.as_str(), url.as_str())
    }

    /// The explicit port, else the scheme's known default port.
    pub fn port_or_known_default(&self) -> (r: Option<u16>)
        ensures
            r == self.port_or_default(),
    {
        match self.port {
            Some(p) => Some(p),
            None => default_port(self.scheme.as_str()),
        }
    }

    /// A copy of this URL.
    pub fn duplicate(&self) -> (r: Url)
        ensures
            r == *self,
    {
        Url {
            serialization: self.serialization.clone(),
            scheme: self.scheme.clone(),
            host: copy_opt_string(&self.host),
            domain: copy_opt_string(&self.domain),
            port: self.port,
            path: self.path.clone(),
        }
    }

    /// The URL as the parser serializes it.
    pub fn as_str(&self) -> (r: &str)
        ensures
            r@ == self.serialization@,
    {
        self.serialization.as_str()
    }
}

/// A copy of an optional string.
pub fn copy_opt_string(o: &Option<String>) -> (r: Option<String>)
    ensures
        r == *o,
{
    match o {
        Some(s) => Some(s.clone()),
        None => None,
    }
}

/// The scheme's known default port (`url::parser::default_port`).
pub fn default_port(scheme: &str) -> (r: Option<u16>)
    ensures
        r == known_default_port(scheme@),
{
    if crate::text::str_equal(scheme, "http") || crate::text::str_equal(scheme, "ws") {
        Some(80)
    } else if crate::text::str_equal(scheme, "https") || crate::text::str_equal(scheme, "wss") {
        Some(443)
    } else if crate::text::str_equal(scheme, "ftp") {
        Some(21)
    } else {
        None
    }
}

/// Calls `url2::Url2::try_parse` (which calls `url::Url::parse`) and reads the
/// parts of the result with `as_str`, `scheme`, `host_str`, `domain`, `port`
/// and `path`, or the error's `Display` text. The contract claims that the
/// result is `Ok` exactly when the parse succeeds, and that each part, and the
/// error text, is the corresponding named function of the input: the parser is
/// deterministic, and nothing else about its output is claimed here.
#[verifier::external_body]
fn parse_url(input: &str) -> (r: Result<Url, String>)
    ensures
        r is Ok <==> url_parses(input@),
        r matches Ok(u) ==> u.serialization@ == url_serialization(input@),
        r matches Ok(u) ==> u.scheme@ == url_scheme(input@),
        r matches Ok(u) ==> opt_view(u.host) == url_host(input@),
        r matches Ok(u) ==> opt_view(u.domain) == url_domain(input@),
        r matches Ok(u) ==> u.port == url_port(input@),
        r matches Ok(u) ==> Some(u.path@) == url_path(input@),
        r matches Err(e) ==> e@ == url_parse_error(input@),
{
    match url2::Url2::try_parse(input) {
        Ok(u) => Ok(Url {
            serialization: u.as_str().to_string(),
            scheme: u.scheme().to_string(),
            host: u.host_str().map(|h| h.to_string()),
            domain: u.domain().map(|d| d.to_string()),
            port: u.port(),
            path: u.path().to_string(),
        }),
        Err(e) => Err(e.to_string()),
    }
}

/// Parses `base` and `url` with `url2::Url2::try_parse` and calls
/// `url::Url::make_relative` on the results. The contract claims only that the
/// result is the named function of the two texts; `None` where either does not
/// parse.
#[verifier::external_body]
fn relative_url(base: &str, url: &str) -> (r: Option<String>)
    ensures
        opt_view(r) == url_relative(base@, url@),
{
    match (url2::Url2::try_parse(base), url2::Url2::try_parse(url)) {
        (Ok(b), Ok(u)) => b.make_relative(&u),
        _ => None,
    }
}

} // verus!
