use vstd::prelude::*;
use crate::text::{decimal, decimal_string, has_prefix_ignoring_case, same_ignoring_case, starts_ignoring_case};

verus! {

/// `http://`, the plain HTTP scheme with its separator.
pub open spec fn http_prefix() -> Seq<char> {
    seq!['h', 't', 't', 'p', ':', '/', '/']
}

/// `https://`, the scheme put in front of input that names none.
pub open spec fn https_prefix() -> Seq<char> {
    seq!['h', 't', 't', 'p', 's', ':', '/', '/']
}

/// `s` begins with `http://` or `https://`, in any ASCII case.
pub open spec fn has_http_scheme(s: Seq<char>) -> bool {
    starts_ignoring_case(s, http_prefix()) || starts_ignoring_case(s, https_prefix())
}

/// The input with `https://` put in front unless it already names the HTTP
/// or HTTPS scheme.
pub open spec fn with_default_scheme(s: Seq<char>) -> Seq<char> {
    if has_http_scheme(s) { s } else { https_prefix() + s }
}

/// Adding the default scheme twice adds it once, and input that already
/// names the HTTP or HTTPS scheme is left as it is.
pub proof fn lemma_default_scheme_idempotent(s: Seq<char>)
    ensures
        with_default_scheme(with_default_scheme(s)) == with_default_scheme(s),
        has_http_scheme(s) ==> with_default_scheme(s) == s,
        has_http_scheme(with_default_scheme(s)),
{
    if !has_http_scheme(s) {
        let t = https_prefix() + s;
        assert forall|i: int| 0 <= i < https_prefix().len() implies same_ignoring_case(
            #[trigger] t[i],
            https_prefix()[i],
        ) by {
            assert(t[i] == https_prefix()[i]);
        }
        assert(starts_ignoring_case(t, https_prefix()));
    }
}

/// Input that already names the HTTP or HTTPS scheme is parsed as it stands,
/// so normalising it gives the parse of that very text.
pub proof fn lemma_absolute_input_parsed_as_is(s: Seq<char>)
    requires
        has_http_scheme(s),
    ensures
        url_parts_of(with_default_scheme(s)) == url_parts_of(s),
{
}

/// Puts `https://` in front of `raw` unless it begins with `http://` or
/// `https://`, in any ASCII case.
pub fn add_default_scheme(raw: &str) -> (r: String)
    ensures
        r@ == with_default_scheme(raw@),
{
    proof {
        reveal_strlit("http://");
        reveal_strlit("https://");
    }
    let named = has_prefix_ignoring_case(raw, "http://") || has_prefix_ignoring_case(
        raw,
        "https://",
    );
    assert("http://"@ =~= http_prefix());
    assert("https://"@ =~= https_prefix());
    if named {
        String::from_str(raw)
    } else {
        let mut r = String::from_str("https://");
        r.append(raw);
        r
    }
}

/// A parsed absolute URL, as plain values: its scheme, its host if it has
/// one, and its serialisation.
#[derive(Clone, Debug)]
pub struct TargetUrl {
    pub scheme: String,
    pub host: Option<String>,
    pub href: String,
}

pub open spec fn opt_view(o: Option<String>) -> Option<Seq<char>> {
    match o {
        Some(s) => Some(s@),
        None => None,
    }
}

impl TargetUrl {
    pub open spec fn parts(&self) -> (Seq<char>, Option<Seq<char>>, Seq<char>) {
        (self.scheme@, opt_view(self.host), self.href@)
    }
}

/// What `url::Url::parse` makes of a string: scheme, host and serialisation,
/// or `None` where it refuses the string.
pub uninterp spec fn url_parts_of(s: Seq<char>) -> Option<(Seq<char>, Option<Seq<char>>, Seq<char>)>;

/// Relies on url::Url::parse (with the `scheme`, `host_str` and `as_str`
/// accessors of its result): the parse depends on the input string alone.
#[verifier::external_body]
fn parse_url(s: &str) -> (r: Option<TargetUrl>)
    ensures
        r is None <==> url_parts_of(s@) is None,
        r is Some ==> url_parts_of(s@) == Some(r->Some_0.parts()),
{
    url::Url::parse(s).ok().map(|u| TargetUrl {
        scheme: u.scheme().to_string(),
        host: u.host_str().map(|h| h.to_string()),
        href: u.as_str().to_string(),
    })
}

/// Why a request is refused before any probe.
#[derive(Clone, Copy, Debug, PartialEq, Eq, Structural)]
pub enum RequestError {
    /// The target does not parse as an absolute URL.
    InvalidUrl,
    /// The target URL has no host.
    MissingHost,
    /// The DNS safety check answered with this non-zero status.
    DomainCheckFailed(u64),
}

/// The message of a refused domain check, with the status in brackets.
pub open spec fn domain_check_message(status: nat) -> Seq<char> {
    seq!['R', 'e', 'q', 'u', 'e', 's', 't', ' ', 'd', 'o', 'e', 's', ' ', 'n', 'o', 't', ' ',
        'p', 'a', 's', 's', ' ', 'd', 'o', 'm', 'a', 'i', 'n', ' ', 'c', 'h', 'e', 'c', 'k', ' ', '[']
        + decimal(status) + seq![']', '.']
}

impl RequestError {
    /// The HTTP status that the service answers with for this error: a
    /// refused domain is the caller's fault, a target that yields no
    /// probeable URL fails the request.
    pub fn http_status(&self) -> (r: u16)
        ensures
            self is DomainCheckFailed ==> r == 400,
            !(self is DomainCheckFailed) ==> r == 500,
    {
        match self {
            RequestError::DomainCheckFailed(_) => 400,
            _ => 500,
        }
    }

    /// The message that the service answers with for this error.
    pub fn message(&self) -> (r: String)
        ensures
            self is DomainCheckFailed ==> r@ == domain_check_message(
                self->DomainCheckFailed_0 as nat,
            ),
            self is MissingHost ==> r@ == "Host is missing."@,
            self is InvalidUrl ==> r@ == "Invalid URL."@,
    {
        match self {
            RequestError::InvalidUrl => String::from_str("Invalid URL."),
            RequestError::MissingHost => String::from_str("Host is missing."),
            RequestError::DomainCheckFailed(status) => {
                proof {
                    reveal_strlit("Request does not pass domain check [");
                    reveal_strlit("].");
                }
                let mut r = String::from_str("Request does not pass domain check [");
                let d = decimal_string(*status);
                r.append(d.as_str());
                r.append("].");
                assert(r@ =~= domain_check_message(*status as nat));
                r
            },
        }
    }
}

/// The outcome of parsing a target: refused, parsed without a host, or a
/// target with a host.
pub fn target_from_parsed(parsed: Option<TargetUrl>) -> (r: Result<TargetUrl, RequestError>)
    ensures
        parsed is None ==> r == Err::<TargetUrl, RequestError>(RequestError::InvalidUrl),
        parsed is Some && parsed->Some_0.host is None ==> r == Err::<TargetUrl, RequestError>(
            RequestError::MissingHost,
        ),
        parsed is Some && parsed->Some_0.host is Some ==> r is Ok && r->Ok_0 == parsed->Some_0,
{
    match parsed {
        None => Err(RequestError::InvalidUrl),
        Some(t) => {
            if t.host.is_some() {
                Ok(t)
            } else {
                Err(RequestError::MissingHost)
            }
        },
    }
}

/// Turns raw input into an absolute target URL with a host: the default
/// scheme is added, then the string is parsed.
pub fn normalize(raw: &str) -> (r: Result<TargetUrl, RequestError>)
    ensures
        url_parts_of(with_default_scheme(raw@)) is None <==> r == Err::<TargetUrl, RequestError>(
            RequestError::InvalidUrl,
        ),
        (url_parts_of(with_default_scheme(raw@)) is Some && url_parts_of(
            with_default_scheme(raw@),
        )->Some_0.1 is None) <==> r == Err::<TargetUrl, RequestError>(RequestError::MissingHost),
        (url_parts_of(with_default_scheme(raw@)) is Some && url_parts_of(
            with_default_scheme(raw@),
        )->Some_0.1 is Some) <==> r is Ok,
        r is Ok ==> url_parts_of(with_default_scheme(raw@)) == Some(r->Ok_0.parts())
            && r->Ok_0.host is Some,
{
    let s = add_default_scheme(raw);
    let parsed = parse_url(s.as_str());
    target_from_parsed(parsed)
}

} // verus!
