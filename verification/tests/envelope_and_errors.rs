use baidupan_sdk::envelope::classify_response;
use baidupan_sdk::Error;

#[test]
fn empty_list_envelope_is_success() {
    let body = "{\"errno\":0,\"list\":[]}".to_string();
    let payload = classify_response(200, body.clone()).unwrap();
    assert_eq!(payload, body);
    // The payload decodes to an empty list.
    let v: serde_json::Value = serde_json::from_str(&payload).unwrap();
    assert_eq!(v["list"].as_array().unwrap().len(), 0);
}

#[test]
fn nonzero_errno_is_an_application_error() {
    let body = "{\"errno\":31023,\"errmsg\":\"no permission\"}".to_string();
    match classify_response(200, body) {
        Err(Error::ApiError { errno, message }) => {
            assert_eq!(errno, 31023);
            assert_eq!(message, "no permission");
        }
        other => panic!("expected an application error, got {:?}", other),
    }
}

#[test]
fn nonzero_errno_without_message() {
    let body = "{\"errno\":2}".to_string();
    match classify_response(200, body) {
        Err(Error::ApiError { errno, message }) => {
            assert_eq!(errno, 2);
            assert_eq!(message, "Unknown error");
        }
        other => panic!("expected an application error, got {:?}", other),
    }
}

#[test]
fn http_403_with_plain_body() {
    match classify_response(403, "forbidden".to_string()) {
        Err(Error::ApiError { errno, message }) => {
            assert_eq!(errno, 403);
            assert_eq!(message, "forbidden");
        }
        other => panic!("expected an application error, got {:?}", other),
    }
}

#[test]
fn http_206_is_success() {
    let body = "{\"errno\":0}".to_string();
    assert!(classify_response(206, body).is_ok());
}

#[test]
fn missing_errno_defaults_to_success() {
    let body = "{\"list\":[]}".to_string();
    assert_eq!(classify_response(200, body.clone()).unwrap(), body);
}

#[test]
fn bare_payload_falls_through() {
    // A body that is not the envelope shape is handed back for typed
    // decoding, not treated as an error.
    let body = "\"just a string\"".to_string();
    assert_eq!(classify_response(200, body.clone()).unwrap(), body);
    let body2 = "not json at all".to_string();
    assert_eq!(classify_response(200, body2.clone()).unwrap(), body2);
}

#[test]
fn non_integer_errno_falls_through() {
    let body = "{\"errno\":\"bad\"}".to_string();
    assert_eq!(classify_response(200, body.clone()).unwrap(), body);
}

#[test]
fn http_500_passes_body_verbatim() {
    let body = "{\"errno\":0}".to_string();
    match classify_response(500, body.clone()) {
        Err(Error::ApiError { errno, message }) => {
            assert_eq!(errno, 500);
            assert_eq!(message, body);
        }
        other => panic!("expected an application error, got {:?}", other),
    }
}
