use binance::client::{classify_response, handle_content_error, Client};
use binance::errors::Error;

#[test]
fn classify_success_returns_body_text() {
    let r = classify_response(200, b"{\"serverTime\":1499827319559}".to_vec());
    assert_eq!(r.unwrap(), "{\"serverTime\":1499827319559}");
}

#[test]
fn classify_success_covers_whole_2xx_class() {
    let r = classify_response(204, Vec::new());
    assert_eq!(r.unwrap(), "");
}

#[test]
fn classify_success_with_binary_body_is_decode_failure() {
    let r = classify_response(200, vec![0xff, 0xfe]);
    assert!(matches!(r, Err(Error::DecodeFailure(_))));
}

#[test]
fn classify_internal_server_error() {
    let r = classify_response(500, Vec::new());
    assert!(matches!(r, Err(Error::ServerInternalError)));
}

#[test]
fn classify_service_unavailable() {
    let r = classify_response(503, Vec::new());
    assert!(matches!(r, Err(Error::ServerUnavailable)));
}

#[test]
fn classify_unauthorized() {
    let r = classify_response(401, Vec::new());
    assert!(matches!(r, Err(Error::AuthFailure)));
}

#[test]
fn classify_unlisted_status() {
    let r = classify_response(418, b"teapot".to_vec());
    assert!(matches!(r, Err(Error::UnknownStatus(418))));
}

#[test]
fn classify_domain_invalid_price() {
    let body = b"{\"code\":-1013,\"msg\":\"Invalid price.\"}".to_vec();
    let r = classify_response(400, body);
    assert!(matches!(r, Err(Error::InvalidPrice)));
}

#[test]
fn classify_domain_invalid_listen_key() {
    let body = b"{\"code\":-1125,\"msg\":\"This listenKey does not exist.\"}".to_vec();
    let r = classify_response(400, body);
    match r {
        Err(Error::InvalidListenKey(msg)) => assert_eq!(msg, "This listenKey does not exist."),
        other => panic!("unexpected outcome: {:?}", other.is_ok()),
    }
}

#[test]
fn classify_domain_generic_rejection() {
    let body = b"{\"code\":-2010,\"msg\":\"Account has insufficient balance.\"}".to_vec();
    let r = classify_response(400, body);
    match r {
        Err(Error::DomainRejection { code, message }) => {
            assert_eq!(code, -2010);
            assert_eq!(message, "Account has insufficient balance.");
        },
        other => panic!("unexpected outcome: {:?}", other.is_ok()),
    }
}

#[test]
fn classify_malformed_error_body() {
    let r = classify_response(400, b"not json at all".to_vec());
    assert!(matches!(r, Err(Error::DecodeFailure(_))));
}

#[test]
fn content_error_special_cases() {
    assert!(matches!(
        handle_content_error(-1013, "Invalid price.".to_string()),
        Error::InvalidPrice
    ));
    match handle_content_error(-1125, "gone".to_string()) {
        Error::InvalidListenKey(msg) => assert_eq!(msg, "gone"),
        _ => panic!("expected the listen-key kind"),
    }
}

#[test]
fn content_error_near_misses_stay_generic() {
    match handle_content_error(-1013, "Invalid quantity.".to_string()) {
        Error::DomainRejection { code, message } => {
            assert_eq!(code, -1013);
            assert_eq!(message, "Invalid quantity.");
        },
        _ => panic!("expected the generic kind"),
    }
    match handle_content_error(-2014, "API-key format invalid.".to_string()) {
        Error::DomainRejection { code, message } => {
            assert_eq!(code, -2014);
            assert_eq!(message, "API-key format invalid.");
        },
        _ => panic!("expected the generic kind"),
    }
}

#[test]
fn build_headers_with_content_type() {
    let client = Client::new(
        Some("vmPUZE6mv9SD5VNHk4HlWFsOr6aKE2zvsw0MuIgwCIPy6utIco14y7Ju91duEh8A".to_string()),
        None,
        "https://api.binance.com".to_string(),
    );
    let headers = client.build_headers(true).unwrap();
    assert_eq!(headers.len(), 3);
    assert_eq!(headers[0].0, "user-agent");
    assert_eq!(headers[0].1, "binance-rs");
    assert_eq!(headers[1].0, "content-type");
    assert_eq!(headers[1].1, "application/x-www-form-urlencoded");
    assert_eq!(headers[2].0, "x-mbx-apikey");
    assert_eq!(
        headers[2].1,
        "vmPUZE6mv9SD5VNHk4HlWFsOr6aKE2zvsw0MuIgwCIPy6utIco14y7Ju91duEh8A"
    );
}

#[test]
fn build_headers_without_content_type() {
    let client = Client::new(Some("k".to_string()), None, "h".to_string());
    let headers = client.build_headers(false).unwrap();
    assert_eq!(headers.len(), 2);
    assert_eq!(headers[0].0, "user-agent");
    assert_eq!(headers[1].0, "x-mbx-apikey");
}

#[test]
fn build_headers_rejects_control_bytes_in_key() {
    let client = Client::new(Some("bad\nkey".to_string()), None, "h".to_string());
    assert!(matches!(
        client.build_headers(true),
        Err(Error::TransportFailure(_))
    ));
}
