use celophane::endpoint::{classify_scheme, select_transport, EndpointError, Transport};
use celophane::text::{bytes_eq, str_eq};

#[test]
fn http_endpoint_selects_the_request_response_transport() {
    assert_eq!(select_transport("http://localhost:8545"), Ok(Transport::Http));
    assert_eq!(select_transport("https://forno.celo.org"), Ok(Transport::Http));
}

#[test]
fn websocket_endpoint_selects_the_persistent_transport() {
    assert_eq!(select_transport("ws://localhost:8546"), Ok(Transport::Ws));
    assert_eq!(select_transport("wss://forno.celo.org/ws"), Ok(Transport::Ws));
}

#[test]
fn ftp_endpoint_fails_naming_its_scheme() {
    assert_eq!(
        select_transport("ftp://example.com"),
        Err(EndpointError::UnknownScheme("ftp".to_string()))
    );
}

#[test]
fn upper_case_scheme_is_lowered_before_classification() {
    assert_eq!(select_transport("HTTP://localhost:8545"), Ok(Transport::Http));
}

#[test]
fn non_url_endpoint_is_invalid() {
    assert_eq!(select_transport("not a url"), Err(EndpointError::InvalidUrl));
    assert_eq!(select_transport(""), Err(EndpointError::InvalidUrl));
}

#[test]
fn classify_knows_only_the_four_schemes() {
    assert_eq!(classify_scheme("http"), Some(Transport::Http));
    assert_eq!(classify_scheme("https"), Some(Transport::Http));
    assert_eq!(classify_scheme("ws"), Some(Transport::Ws));
    assert_eq!(classify_scheme("wss"), Some(Transport::Ws));
    assert_eq!(classify_scheme("ftp"), None);
    assert_eq!(classify_scheme("HTTP"), None);
    assert_eq!(classify_scheme(""), None);
}

#[test]
fn string_equality_helpers_compare_contents() {
    assert!(str_eq("wss", "wss"));
    assert!(!str_eq("ws", "wss"));
    assert!(bytes_eq(b"ce10", b"ce10"));
    assert!(!bytes_eq(b"ce10", b"ce11"));
}
