use datastar::signals::{
    engaged_source, extract_signals, handle_rejection, is_datastar_request, read_signals_optional, signals_param,
    signals_source, typed_signals, ReadSignals, SignalsSource, BAD_REQUEST, INTERNAL_SERVER_ERROR,
};
use std::collections::HashMap;

fn pairs(list: &[(&str, &str)]) -> Vec<(String, String)> {
    list.iter().map(|(k, v)| (k.to_string(), v.to_string())).collect()
}

#[test]
fn get_request_reads_signals_from_the_query() {
    let out = extract_signals("GET", "datastar=%7B%22delay%22%3A5%7D", Vec::new());
    let ReadSignals(value) = out.unwrap();
    assert_eq!(value.get("delay").and_then(|d| d.as_u64()), Some(5));
    assert_eq!(value.as_object().map(|o| o.len()), Some(1));
}

#[test]
fn get_request_with_malformed_json_is_a_client_error() {
    let err = extract_signals("GET", "datastar=%7B%22delay%22%3A", Vec::new()).unwrap_err();
    assert_eq!(err.status(), 400);
    let fault = serde_json::from_str::<serde_json::Value>("{\"delay\":").unwrap_err().to_string();
    assert_eq!(err.message(), format!("Failed to parse JSON: {}", fault));
    assert_eq!(
        err.message(),
        "Failed to parse JSON: EOF while parsing a value at line 1 column 9"
    );
}

#[test]
fn get_request_ignores_the_body() {
    let out = extract_signals("GET", "datastar=1", b"not json".to_vec());
    let ReadSignals(value) = out.unwrap();
    assert_eq!(value.as_u64(), Some(1));
}

#[test]
fn get_request_without_the_parameter_is_a_client_error() {
    for query in ["", "other=1", "Datastar=1", "datastar"] {
        let out = extract_signals("GET", query, b"{}".to_vec());
        if query == "datastar" {
            let err = out.unwrap_err();
            assert_eq!(err.status(), BAD_REQUEST);
            assert!(err.message().starts_with("Failed to parse JSON: "));
        } else {
            let err = out.unwrap_err();
            assert_eq!(err.status(), BAD_REQUEST);
            assert_eq!(err.message(), "Failed to parse query: missing field `datastar`");
        }
    }
}

#[test]
fn get_request_with_the_parameter_twice_is_a_client_error() {
    let err = extract_signals("GET", "datastar=1&x=2&datastar=3", Vec::new()).unwrap_err();
    assert_eq!(err.status(), 400);
    assert_eq!(err.message(), "Failed to parse query: duplicate field `datastar`");
}

#[test]
fn query_is_decoded_before_it_is_parsed() {
    let found = signals_source("GET", "a=b&datastar=%7B%22s%22%3A+%22x%26y%22%7D&c", Vec::new());
    match found.unwrap() {
        SignalsSource::FromQuery(text) => assert_eq!(text, "{\"s\": \"x&y\"}"),
        SignalsSource::FromBody(_) => panic!("the signals of a GET request stand in the query"),
    }
}

#[test]
fn other_requests_read_signals_from_the_body() {
    for method in ["POST", "PUT", "PATCH", "DELETE", "get", "Get", ""] {
        let out = extract_signals(method, "datastar=%7B%7D", b"{\"a\": [1, 2]}".to_vec());
        let ReadSignals(value) = out.unwrap();
        assert_eq!(value.get("a").and_then(|a| a.as_array()).map(|a| a.len()), Some(2));
    }
}

#[test]
fn other_requests_take_the_body_as_it_is() {
    let found = signals_source("POST", "datastar=1", vec![1, 2, 3]).unwrap();
    match found {
        SignalsSource::FromBody(bytes) => assert_eq!(bytes, vec![1, 2, 3]),
        SignalsSource::FromQuery(_) => panic!("the signals of a POST request stand in the body"),
    }
}

#[test]
fn body_that_is_no_json_is_a_client_error() {
    let err = extract_signals("POST", "", b"x".to_vec()).unwrap_err();
    assert_eq!(err.status(), 400);
    assert_eq!(err.message(), "Failed to parse JSON body: expected value at line 1 column 1");
    let empty = extract_signals("POST", "", Vec::new()).unwrap_err();
    assert_eq!(empty.status(), 400);
    assert_eq!(
        empty.message(),
        "Failed to parse JSON body: EOF while parsing a value at line 1 column 0"
    );
    let trailing = extract_signals("PUT", "", b"{} {}".to_vec()).unwrap_err();
    assert_eq!(trailing.status(), 400);
    assert!(trailing.message().starts_with("Failed to parse JSON body: trailing characters"));
}

#[test]
fn signals_param_finds_the_one_parameter() {
    assert_eq!(signals_param(&pairs(&[("datastar", "{}")])).unwrap(), "{}");
    assert_eq!(signals_param(&pairs(&[("a", "1"), ("datastar", "x"), ("b", "2")])).unwrap(), "x");
    assert_eq!(signals_param(&pairs(&[("datastar", "")])).unwrap(), "");
    let missing = signals_param(&pairs(&[("a", "datastar")])).unwrap_err();
    assert_eq!(missing.message(), "Failed to parse query: missing field `datastar`");
    assert_eq!(missing.status(), 400);
    let none = signals_param(&Vec::new()).unwrap_err();
    assert_eq!(none.message(), "Failed to parse query: missing field `datastar`");
    let twice = signals_param(&pairs(&[("datastar", "1"), ("datastar", "1")])).unwrap_err();
    assert_eq!(twice.message(), "Failed to parse query: duplicate field `datastar`");
    let thrice =
        signals_param(&pairs(&[("datastar", "1"), ("datastar", "2"), ("datastar", "3")])).unwrap_err();
    assert_eq!(thrice.message(), "Failed to parse query: duplicate field `datastar`");
    assert_eq!(thrice.status(), 400);
}

#[test]
fn typed_signals_wraps_what_was_parsed() {
    let source = signals_source("GET", "datastar=%7B%22delay%22%3A5%7D", Vec::new()).unwrap();
    let parsed = match &source {
        SignalsSource::FromQuery(text) => serde_json::from_str::<HashMap<String, u64>>(text),
        SignalsSource::FromBody(bytes) => serde_json::from_slice::<HashMap<String, u64>>(bytes),
    };
    let ReadSignals(signals) = typed_signals(&source, parsed.map_err(|e| e.to_string())).unwrap();
    assert_eq!(signals.get("delay"), Some(&5));
    assert_eq!(signals.len(), 1);
}

#[test]
fn typed_signals_reports_a_shape_that_does_not_fit() {
    let source = signals_source("GET", "datastar=%7B%22delay%22%3A%22soon%22%7D", Vec::new()).unwrap();
    let parsed = match &source {
        SignalsSource::FromQuery(text) => serde_json::from_str::<HashMap<String, u64>>(text),
        SignalsSource::FromBody(bytes) => serde_json::from_slice::<HashMap<String, u64>>(bytes),
    };
    let err = typed_signals(&source, parsed.map_err(|e| e.to_string())).unwrap_err();
    assert_eq!(err.status(), 400);
    assert_eq!(
        err.message(),
        "Failed to parse JSON: invalid type: string \"soon\", expected u64 at line 1 column 15"
    );
    let body = SignalsSource::FromBody(Vec::new());
    let err = typed_signals::<u8>(&body, Err("no".to_owned())).unwrap_err();
    assert_eq!(err.message(), "Failed to parse JSON body: no");
    assert_eq!(err.status(), 400);
}

#[test]
fn request_without_the_header_is_not_engaged() {
    let cases: [(&str, &str, &[u8]); 4] = [
        ("GET", "datastar=%7B%7D", b""),
        ("GET", "", b""),
        ("POST", "", b"{}"),
        ("POST", "datastar", b"not json"),
    ];
    for (method, query, body) in cases {
        let out = read_signals_optional(&None, method, query, body.to_vec());
        assert!(matches!(out, Ok(None)));
    }
}

#[test]
fn request_with_the_header_is_read() {
    let header = Some("true".to_owned());
    let out = read_signals_optional(&header, "POST", "", b"{\"n\":3}".to_vec());
    let ReadSignals(value) = out.unwrap().unwrap();
    assert_eq!(value.get("n").and_then(|n| n.as_u64()), Some(3));
    let err = read_signals_optional(&header, "GET", "", Vec::new()).unwrap_err();
    assert_eq!(err.status(), 400);
    assert_eq!(err.message(), "Failed to parse query: missing field `datastar`");
    let empty_header = Some(String::new());
    let err = read_signals_optional(&empty_header, "POST", "", b"[".to_vec()).unwrap_err();
    assert_eq!(err.status(), 400);
}

#[test]
fn header_marks_a_datastar_request() {
    assert!(is_datastar_request(&Some("true".to_owned())));
    assert!(is_datastar_request(&Some(String::new())));
    assert!(!is_datastar_request(&None));
}

#[test]
fn rejection_becomes_a_reply() {
    let err = extract_signals("GET", "", Vec::new()).unwrap_err();
    let (message, status) = handle_rejection(Some(&err));
    assert_eq!(message, "Failed to parse query: missing field `datastar`");
    assert_eq!(status, 400);
    let (message, status) = handle_rejection(None);
    assert_eq!(message, "Internal Server Error");
    assert_eq!(status, INTERNAL_SERVER_ERROR);
    assert_eq!(INTERNAL_SERVER_ERROR, 500);
}

#[test]
fn source_of_a_request_without_the_header_is_none() {
    let cases: [(&str, &str, &[u8]); 3] =
        [("GET", "datastar=%7B%7D", b""), ("GET", "", b""), ("POST", "", b"not json")];
    for (method, query, body) in cases {
        let out = engaged_source(&None, method, query, body.to_vec());
        assert!(matches!(out, Ok(None)));
    }
}

#[test]
fn source_of_a_request_with_the_header_is_found() {
    let header = Some("true".to_owned());
    match engaged_source(&header, "GET", "datastar=%5B1%5D", b"ignored".to_vec()).unwrap() {
        Some(SignalsSource::FromQuery(text)) => assert_eq!(text, "[1]"),
        _ => panic!("the signals of a GET request stand in the query"),
    }
    match engaged_source(&header, "POST", "datastar=%5B1%5D", b"not json".to_vec()).unwrap() {
        Some(SignalsSource::FromBody(bytes)) => assert_eq!(bytes, b"not json".to_vec()),
        _ => panic!("the signals of a POST request stand in the body"),
    }
    let err = engaged_source(&header, "GET", "x=1", Vec::new()).unwrap_err();
    assert_eq!(err.status(), 400);
    assert_eq!(err.message(), "Failed to parse query: missing field `datastar`");
}

#[test]
fn extracted_value_is_the_document_that_was_sent() {
    let text = "{\"a\":[1,{\"b\":null}],\"c\":\"x\"}";
    let expected: serde_json::Value = serde_json::from_str(text).unwrap();
    let ReadSignals(from_body) = extract_signals("POST", "", text.as_bytes().to_vec()).unwrap();
    assert_eq!(from_body, expected);
    let query = "datastar=%7B%22a%22%3A%5B1%2C%7B%22b%22%3Anull%7D%5D%2C%22c%22%3A%22x%22%7D";
    let ReadSignals(from_query) = extract_signals("GET", query, Vec::new()).unwrap();
    assert_eq!(from_query, expected);
    let header = Some(String::new());
    let ReadSignals(optional) =
        read_signals_optional(&header, "PUT", "", text.as_bytes().to_vec()).unwrap().unwrap();
    assert_eq!(optional, expected);
}
