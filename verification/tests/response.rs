use fluvio_mini_http::errors::Error;
use fluvio_mini_http::headers::HeaderPair;
use fluvio_mini_http::response::{concat_chunks, decode_outcome, Response, ResponseBody, ResponseExt};

#[test]
fn bytes_joins_two_chunks_into_hello() {
    let body = ResponseBody::Chunked(vec![b"he".to_vec(), b"llo".to_vec()]);
    let response = Response::new(200, Vec::new(), body);
    assert_eq!(response.bytes().unwrap(), b"hello".to_vec());
}

#[test]
fn bytes_of_single_chunk_is_the_chunk() {
    let body = ResponseBody::Chunked(vec![b"hello".to_vec()]);
    let response = Response::new(200, Vec::new(), body);
    assert_eq!(response.bytes().unwrap(), b"hello".to_vec());
}

#[test]
fn bytes_of_empty_body_is_empty() {
    let response = Response::new(204, Vec::new(), ResponseBody::Chunked(Vec::new()));
    assert_eq!(response.bytes().unwrap(), Vec::<u8>::new());
}

#[test]
fn concatenation_keeps_chunk_order_and_skips_nothing() {
    let joined = concat_chunks(vec![vec![1u8, 2], Vec::new(), vec![3u8], vec![4u8, 5]]);
    assert_eq!(joined, vec![1u8, 2, 3, 4, 5]);
}

#[test]
fn broken_body_yields_body_read_error() {
    let response = Response::new(200, Vec::new(), ResponseBody::Broken);
    assert_eq!(response.bytes().unwrap_err(), Error::BodyRead);
}

#[test]
fn response_exposes_status_and_headers() {
    let pair = HeaderPair::new("content-type", "text/plain").unwrap();
    let response = Response::new(404, vec![pair], ResponseBody::Chunked(Vec::new()));
    assert_eq!(response.status(), 404);
    assert_eq!(response.headers().len(), 1);
    assert_eq!(response.headers()[0].name(), "content-type");
    assert_eq!(response.headers()[0].value(), "text/plain");
}

#[test]
fn header_pair_rejects_control_characters() {
    assert_eq!(
        HeaderPair::new("x-a", "a\u{7f}b").unwrap_err(),
        Error::HeaderConversion
    );
    assert_eq!(HeaderPair::new("", "v").unwrap_err(), Error::HeaderConversion);
    let pair = HeaderPair::new("x-a", "sp ace and\ttab").unwrap();
    assert_eq!(pair.value(), "sp ace and\ttab");
}

#[test]
fn json_body_decodes_to_typed_value() {
    let body = ResponseBody::Chunked(vec![b"{\"a\"".to_vec(), b":1}".to_vec()]);
    let response = Response::new(200, Vec::new(), body);
    let bytes = response.bytes().unwrap();
    let parsed = serde_json::from_slice::<serde_json::Value>(&bytes).map_err(|e| e.to_string());
    let value = decode_outcome(parsed).unwrap();
    assert_eq!(value.get("a").and_then(|v| v.as_i64()), Some(1));
}

#[test]
fn non_json_body_yields_decode_error_with_codec_message() {
    let body = ResponseBody::Chunked(vec![b"not-json".to_vec()]);
    let response = Response::new(200, Vec::new(), body);
    let bytes = response.bytes().unwrap();
    let parsed =
        serde_json::from_slice::<serde_json::Value>(&bytes).map_err(|e| e.to_string());
    let expected = parsed.clone().unwrap_err();
    match decode_outcome(parsed) {
        Err(Error::Decode(message)) => assert_eq!(message, expected),
        other => panic!("expected a decode error, got {:?}", other),
    }
}

#[test]
fn decode_outcome_passes_decoded_value_through() {
    assert_eq!(decode_outcome::<u8>(Ok(7)), Ok(7));
}
