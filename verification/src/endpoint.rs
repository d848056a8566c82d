use crate::text::str_eq;
use vstd::prelude::*;

verus! {

/// The transport a command runs over, chosen from the endpoint URL's
/// scheme.
#[derive(Clone, Copy, PartialEq, Eq, Structural, Debug)]
pub enum Transport {
    Http,
    Ws,
}

/// Why no transport could be selected for an endpoint.
#[derive(Clone, PartialEq, Eq, Debug)]
pub enum EndpointError {
    /// The endpoint is not an absolute URL.
    InvalidUrl,
    /// The URL's scheme selects no transport; the error carries that
    /// scheme.
    UnknownScheme(String),
}

/// Whether `url::Url::parse` accepts the string as an absolute URL.
pub uninterp spec fn url_parses(s: Seq<char>) -> bool;

/// The scheme of the URL the string spells, lower-cased and without the
/// `:` delimiter, as `url::Url::scheme` reports it after a successful
/// parse.
pub uninterp spec fn scheme_of(s: Seq<char>) -> Seq<char>;

/// Relies on url::Url::parse and url::Url::scheme: with default options
/// the parse, and hence the parsed URL's scheme, are functions of the
/// input string alone; the scheme comes back lower-cased, without the
/// `:` delimiter.
#[verifier::external_body]
fn parse_scheme(s: &str) -> (r: Option<String>)
    ensures
        r is Some <==> url_parses(s@),
        r matches Some(sch) ==> sch@ == scheme_of(s@),
{
    match url::Url::parse(s) {
        Ok(u) => Some(u.scheme().to_string()),
        Err(_) => None,
    }
}

/// The schemes that select a transport: request-response over `http` and
/// `https`, a persistent connection over `ws` and `wss`.
pub open spec fn known_scheme(s: Seq<char>) -> bool {
    s == "http"@ || s == "https"@ || s == "ws"@ || s == "wss"@
}

/// The transport a scheme selects, none for an unknown scheme.
pub open spec fn transport_of_scheme(s: Seq<char>) -> Option<Transport> {
    if s == "http"@ || s == "https"@ {
        Some(Transport::Http)
    } else if s == "ws"@ || s == "wss"@ {
        Some(Transport::Ws)
    } else {
        None
    }
}

/// Classify a URL scheme: `http` and `https` select the request-response
/// transport, `ws` and `wss` the persistent one, any other scheme none.
pub fn classify_scheme(s: &str) -> (r: Option<Transport>)
    ensures
        r == transport_of_scheme(s@),
{
    if str_eq(s, "http") || str_eq(s, "https") {
        Some(Transport::Http)
    } else if str_eq(s, "ws") || str_eq(s, "wss") {
        Some(Transport::Ws)
    } else {
        None
    }
}

/// Select the transport for an endpoint, before and without any network
/// contact: the endpoint must parse as an absolute URL and its scheme
/// must be known; the scheme then decides the transport, and a failure
/// names what was wrong, an unsupported scheme by its text.
pub fn select_transport(endpoint: &str) -> (r: Result<Transport, EndpointError>)
    ensures
        !url_parses(endpoint@) <==> r == Err::<Transport, EndpointError>(
            EndpointError::InvalidUrl,
        ),
        url_parses(endpoint@) && transport_of_scheme(scheme_of(endpoint@)) is Some ==> r
            == Ok::<Transport, EndpointError>(transport_of_scheme(scheme_of(endpoint@))->Some_0),
        url_parses(endpoint@) && transport_of_scheme(scheme_of(endpoint@)) is None ==> (r matches Err(
            EndpointError::UnknownScheme(sch),
        ) && sch@ == scheme_of(endpoint@)),
        r matches Err(EndpointError::UnknownScheme(sch)) ==> !known_scheme(sch@),
{
    match parse_scheme(endpoint) {
        None => Err(EndpointError::InvalidUrl),
        Some(sch) => match classify_scheme(sch.as_str()) {
            Some(t) => Ok(t),
            None => Err(EndpointError::UnknownScheme(sch)),
        },
    }
}

} // verus!
