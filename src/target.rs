//! From the caller's input to the URL, port and request bytes of a request.
use crate::error::TimingError;
use crate::text::{chars_equal, chars_of, chars_start_with, has_prefix};
use vstd::prelude::*;
use vstd::string::*;

verus! {

/// The parts of a parsed URL that a request reads.
#[derive(Debug)]
pub struct UrlParts {
    pub scheme: String,
    pub host: Option<String>,
    pub port: Option<u16>,
    pub path: String,
}

/// A [`UrlParts`] as characters.
pub ghost struct UrlView {
    pub scheme: Seq<char>,
    pub host: Option<Seq<char>>,
    pub port: Option<u16>,
    pub path: Seq<char>,
}

impl View for UrlParts {
    type V = UrlView;

    open spec fn view(&self) -> UrlView {
        UrlView {
            scheme: self.scheme@,
            host: match self.host {
                Some(h) => Some(h@),
                None => None,
            },
            port: self.port,
            path: self.path@,
        }
    }
}

/// The scheme, host, explicit port and path that the URL grammar gives a
/// string, or `None` where the string is no URL.
pub uninterp spec fn parsed_url_of(s: Seq<char>) -> Option<UrlView>;

/// Relies on `url::Url::parse` and its accessors `scheme`, `host_str`, `port`
/// and `path`: the result depends on the string alone.
#[verifier::external_body]
fn parse_url(s: &str) -> (r: Result<UrlParts, String>)
    ensures
        r is Ok <==> parsed_url_of(s@) is Some,
        r matches Ok(u) ==> parsed_url_of(s@) == Some(u@),
{
    match url::Url::parse(s) {
        Ok(u) => Ok(UrlParts {
            scheme: u.scheme().to_string(),
            host: u.host_str().map(String::from),
            port: u.port(),
            path: u.path().to_string(),
        }),
        Err(e) => Err(e.to_string()),
    }
}

pub open spec fn http_scheme() -> Seq<char> {
    seq!['h', 't', 't', 'p']
}

pub open spec fn https_scheme() -> Seq<char> {
    seq!['h', 't', 't', 'p', 's']
}

/// What is prefixed to an input that does not begin with a scheme.
pub open spec fn default_prefix() -> Seq<char> {
    seq!['h', 't', 't', 'p', ':', '/', '/']
}

/// The input as it is parsed: unchanged where it begins with the scheme
/// token, else with the unencrypted scheme prefixed.
pub open spec fn normalized_input(s: Seq<char>) -> Seq<char> {
    if has_prefix(s, http_scheme()) {
        s
    } else {
        default_prefix() + s
    }
}

/// Normalizes a non-empty input; an empty one is an input error.
pub fn normalize_input(input: &str) -> (r: Result<String, TimingError>)
    ensures
        r is Err <==> input@.len() == 0,
        r matches Err(e) ==> e is Input,
        r matches Ok(s) ==> s@ == normalized_input(input@),
{
    if input.is_empty() {
        return Err(TimingError::Input(String::from_str("missing URL input")));
    }
    let chars = chars_of(input);
    proof {
        reveal_strlit("http");
        reveal_strlit("http://");
        assert("http"@ =~= http_scheme());
        assert("http://"@ =~= default_prefix());
    }
    let scheme = chars_of("http");
    if chars_start_with(&chars, &scheme) {
        Ok(String::from_str(input))
    } else {
        Ok(String::from_str("http://").concat(input))
    }
}

/// Normalizes the input and parses it as a URL.
pub fn parse_input(input: &str) -> (r: Result<UrlParts, TimingError>)
    ensures
        r is Ok <==> input@.len() > 0 && parsed_url_of(normalized_input(input@)) is Some,
        r matches Ok(u) ==> parsed_url_of(normalized_input(input@)) == Some(u@),
        r matches Err(e) ==> e is Input,
{
    let normalized = normalize_input(input)?;
    match parse_url(normalized.as_str()) {
        Ok(u) => Ok(u),
        Err(message) => Err(TimingError::Input(message)),
    }
}

/// An input without the scheme token is parsed as the same input with the
/// unencrypted scheme written out.
pub proof fn lemma_default_scheme(s: Seq<char>)
    requires
        !has_prefix(s, http_scheme()),
    ensures
        normalized_input(s) == normalized_input(default_prefix() + s),
        parsed_url_of(normalized_input(s)) == parsed_url_of(normalized_input(default_prefix() + s)),
{
    assert((default_prefix() + s).subrange(0, 4) =~= http_scheme());
}

/// The port that is resolved: the explicit one, else the scheme's default.
/// `None` where the URL has no host or a scheme other than the two served.
pub open spec fn target_port_of(u: UrlView) -> Option<u16> {
    if u.host is None {
        None
    } else if u.scheme == http_scheme() {
        match u.port {
            Some(p) => Some(p),
            None => Some(80u16),
        }
    } else if u.scheme == https_scheme() {
        match u.port {
            Some(p) => Some(p),
            None => Some(443u16),
        }
    } else {
        None
    }
}

/// Whether the URL asks for the encrypted transport.
pub open spec fn is_encrypted(u: UrlView) -> bool {
    u.scheme == https_scheme()
}

/// Whether the scheme of `u` is the encrypted one.
pub fn uses_tls(u: &UrlParts) -> (r: bool)
    ensures
        r == is_encrypted(u@),
{
    proof {
        reveal_strlit("https");
        assert("https"@ =~= https_scheme());
    }
    chars_equal(&chars_of(u.scheme.as_str()), &chars_of("https"))
}

/// The port to resolve for `u`; an input error where it has no host or an
/// unsupported scheme.
pub fn target_port(u: &UrlParts) -> (r: Result<u16, TimingError>)
    ensures
        r is Ok <==> target_port_of(u@) is Some,
        r matches Ok(p) ==> target_port_of(u@) == Some(p),
        r matches Err(e) ==> e is Input,
{
    if u.host.is_none() {
        return Err(TimingError::Input(String::from_str("URL without host")));
    }
    proof {
        reveal_strlit("http");
        reveal_strlit("https");
        assert("http"@ =~= http_scheme());
        assert("https"@ =~= https_scheme());
    }
    let scheme = chars_of(u.scheme.as_str());
    let default: u16 = if chars_equal(&scheme, &chars_of("http")) {
        80
    } else if chars_equal(&scheme, &chars_of("https")) {
        443
    } else {
        return Err(TimingError::Input(String::from_str("unsupported scheme")));
    };
    match u.port {
        Some(p) => Ok(p),
        None => Ok(default),
    }
}

/// The HTTP/1.0 request sent for `path` on `host`.
pub open spec fn request_text_of(path: Seq<char>, host: Seq<char>) -> Seq<char> {
    "GET "@ + path + " HTTP/1.0\r\nHost: "@ + host
        + "\r\nAccept-Encoding: gzip, deflate, br\r\nUser-Agent: http-timings/0.1\r\nConnection: keep-alive\r\nAccept: */*\r\n\r\n"@
}

/// The request for the URL's path and host.
pub fn request_text(u: &UrlParts) -> (r: String)
    requires
        u.host is Some,
    ensures
        r@ == request_text_of(u@.path, u@.host->0),
{
    let host = match &u.host {
        Some(h) => h.as_str(),
        None => "",
    };
    String::from_str("GET ").concat(u.path.as_str()).concat(" HTTP/1.0\r\nHost: ").concat(
        host,
    ).concat(
        "\r\nAccept-Encoding: gzip, deflate, br\r\nUser-Agent: http-timings/0.1\r\nConnection: keep-alive\r\nAccept: */*\r\n\r\n",
    )
}

} // verus!
