use fluvio_mini_http::client::Transport;
use fluvio_mini_http::errors::Error;
use fluvio_mini_http::request::{interpret_dispatch, Descriptor, RequestBuilder};

fn transport() -> Transport {
    Transport::new(hyper::Client::new())
}

fn descriptor(method: &str, uri: &str) -> Descriptor {
    Descriptor::new(method, uri).expect("method and uri should validate")
}

#[test]
fn headers_accumulate_in_call_order() {
    let builder = RequestBuilder::new(transport(), descriptor("GET", "http://example.com/x"));
    let (_client, finalized) = builder.header("x-one", "1").header("x-two", "2").finalize();
    let request = finalized.expect("finalization should succeed");
    let headers = request.headers();
    assert_eq!(headers.len(), 3);
    assert_eq!(headers[0].name(), "x-one");
    assert_eq!(headers[0].value(), "1");
    assert_eq!(headers[1].name(), "x-two");
    assert_eq!(headers[1].value(), "2");
    assert_eq!(headers[2].name(), "user-agent");
    assert_eq!(headers[2].value(), "fluvio-mini-http/0.1");
}

#[test]
fn duplicate_header_keys_append() {
    let builder = RequestBuilder::new(transport(), descriptor("GET", "/a"));
    let (_client, finalized) = builder.header("x-a", "1").header("x-a", "2").finalize();
    let request = finalized.unwrap();
    let headers = request.headers();
    assert_eq!(headers.len(), 3);
    assert_eq!(headers[0].name(), "x-a");
    assert_eq!(headers[0].value(), "1");
    assert_eq!(headers[1].name(), "x-a");
    assert_eq!(headers[1].value(), "2");
}

#[test]
fn finalized_request_has_empty_body_and_identifying_header() {
    let builder = RequestBuilder::new(transport(), descriptor("POST", "http://example.com/"));
    let (_client, finalized) = builder.header("accept", "application/json").finalize();
    let request = finalized.unwrap();
    assert!(request.body().is_empty());
    assert_eq!(request.method(), "POST");
    assert_eq!(request.uri(), "http://example.com/");
    let headers = request.headers();
    assert!(headers
        .iter()
        .any(|p| p.name() == "accept" && p.value() == "application/json"));
    let last = headers.last().unwrap();
    assert_eq!(last.name(), "user-agent");
    assert_eq!(last.value(), "fluvio-mini-http/0.1");
}

#[test]
fn identifying_header_comes_after_caller_supplied_user_agent() {
    let builder = RequestBuilder::new(transport(), descriptor("GET", "/a"));
    let (_client, finalized) = builder.header("user-agent", "custom/9").finalize();
    let request = finalized.unwrap();
    let headers = request.headers();
    assert_eq!(headers.len(), 2);
    assert_eq!(headers[0].value(), "custom/9");
    assert_eq!(headers[1].name(), "user-agent");
    assert_eq!(headers[1].value(), "fluvio-mini-http/0.1");
}

#[test]
fn invalid_header_value_yields_conversion_error() {
    let builder = RequestBuilder::new(transport(), descriptor("GET", "/a"));
    let (_client, finalized) = builder.header("x-a", "bad\u{1}value").finalize();
    assert_eq!(finalized.unwrap_err(), Error::HeaderConversion);
}

#[test]
fn invalid_header_name_yields_conversion_error() {
    let builder = RequestBuilder::new(transport(), descriptor("GET", "/a"));
    let (_client, finalized) = builder.header("bad name", "v").finalize();
    assert_eq!(finalized.unwrap_err(), Error::HeaderConversion);
}

#[test]
fn recorded_failure_outlives_later_headers() {
    let builder = RequestBuilder::new(transport(), descriptor("GET", "/a"));
    let (_client, finalized) = builder
        .header("x-a", "bad\nvalue")
        .header("x-b", "fine")
        .finalize();
    assert_eq!(finalized.unwrap_err(), Error::HeaderConversion);
}

#[test]
fn descriptor_rejects_invalid_method_or_uri() {
    assert!(Descriptor::new("GE T", "/a").is_none());
    assert!(Descriptor::new("", "/a").is_none());
    assert!(Descriptor::new("GET", "").is_none());
    let d = Descriptor::new("PUT", "https://example.com/a?b=c").unwrap();
    assert_eq!(d.method(), "PUT");
    assert_eq!(d.uri(), "https://example.com/a?b=c");
}

#[test]
fn extension_method_tokens_are_accepted() {
    assert!(Descriptor::new("PURGE", "/cache").is_some());
    assert!(Descriptor::new("M-SEARCH", "*").is_some());
}

#[test]
fn one_transport_handle_serves_many_builders() {
    let shared = transport();
    let (_c1, first) = RequestBuilder::new(shared.clone(), descriptor("GET", "/a")).finalize();
    let (_c2, second) = RequestBuilder::new(shared, descriptor("GET", "/b")).finalize();
    assert_eq!(first.unwrap().uri(), "/a");
    assert_eq!(second.unwrap().uri(), "/b");
}

#[test]
fn transport_failure_yields_request_error() {
    let outcome: Option<u8> = None;
    assert_eq!(interpret_dispatch(outcome), Err(Error::Request));
}

#[test]
fn delivered_response_passes_through_unchanged() {
    assert_eq!(interpret_dispatch(Some(7u8)), Ok(7u8));
}
