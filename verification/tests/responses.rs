use ocs_client::errors::ClientError;
use ocs_client::wire::{
    extract_tx_hash, interpret_balance_response, interpret_status_response,
    interpret_submit_response, interpret_view_response, is_error_status, normalize_view,
    status_confirmed, to_display_string, ResultValue,
};

#[test]
fn view_result_number_normalizes_to_its_text() {
    let r = interpret_view_response("{\"status\":\"success\",\"result\":42}");
    assert_eq!(r.unwrap(), Some("42".to_string()));
}

#[test]
fn view_result_bool_normalizes_to_true_false() {
    let r = interpret_view_response("{\"status\":\"success\",\"result\":true}");
    assert_eq!(r.unwrap(), Some("true".to_string()));
    let r = interpret_view_response("{\"status\":\"success\",\"result\":false}");
    assert_eq!(r.unwrap(), Some("false".to_string()));
}

#[test]
fn view_result_null_normalizes_to_null_text() {
    let r = interpret_view_response("{\"status\":\"success\",\"result\":null}");
    assert_eq!(r.unwrap(), Some("null".to_string()));
}

#[test]
fn view_result_string_stays_as_it_is() {
    let r = interpret_view_response("{\"status\":\"success\",\"result\":\"hello\"}");
    assert_eq!(r.unwrap(), Some("hello".to_string()));
}

#[test]
fn view_result_other_shape_keeps_raw_text() {
    let r = interpret_view_response("{\"status\":\"success\",\"result\":[1,2]}");
    assert_eq!(r.unwrap(), Some("[1,2]".to_string()));
}

#[test]
fn view_error_status_yields_no_result() {
    let r = interpret_view_response("{\"status\":\"error\",\"result\":42}");
    assert_eq!(r.unwrap(), None);
}

#[test]
fn view_unparseable_body_is_malformed() {
    let r = interpret_view_response("not json at all");
    assert!(matches!(r, Err(ClientError::Malformed(_))));
}

#[test]
fn normalize_view_direct_values() {
    let success = ResultValue::Str("success".to_string());
    assert_eq!(
        normalize_view(&success, &ResultValue::Num("42".to_string())),
        Some("42".to_string())
    );
    assert_eq!(
        normalize_view(&ResultValue::Str("error".to_string()), &ResultValue::Num("42".to_string())),
        None
    );
    // A non-string status is never success, whatever the result holds.
    assert_eq!(
        normalize_view(&ResultValue::Bool(true), &ResultValue::Num("42".to_string())),
        None
    );
}

#[test]
fn display_rules_are_exact() {
    assert_eq!(to_display_string(&ResultValue::Str("hi".to_string())), "hi");
    assert_eq!(to_display_string(&ResultValue::Num("3.5".to_string())), "3.5");
    assert_eq!(to_display_string(&ResultValue::Bool(true)), "true");
    assert_eq!(to_display_string(&ResultValue::Bool(false)), "false");
    assert_eq!(to_display_string(&ResultValue::Null), "null");
    assert_eq!(to_display_string(&ResultValue::Other("{\"a\":1}".to_string())), "{\"a\":1}");
}

#[test]
fn submit_response_hash_extraction() {
    assert_eq!(interpret_submit_response("{\"tx_hash\":\"abc123\"}").unwrap(), "abc123");
    assert_eq!(interpret_submit_response("{}").unwrap(), "");
    assert_eq!(interpret_submit_response("{\"tx_hash\":42}").unwrap(), "");
    assert!(matches!(interpret_submit_response("...."), Err(ClientError::Malformed(_))));
}

#[test]
fn tx_hash_of_non_string_is_empty() {
    assert_eq!(extract_tx_hash(&ResultValue::Null), "");
    assert_eq!(extract_tx_hash(&ResultValue::Str("h".to_string())), "h");
}

#[test]
fn status_response_confirmed_only_on_exact_text() {
    assert_eq!(interpret_status_response("{\"status\":\"confirmed\"}").unwrap(), true);
    assert_eq!(interpret_status_response("{\"status\":\"pending\"}").unwrap(), false);
    assert_eq!(interpret_status_response("{\"status\":\"Confirmed\"}").unwrap(), false);
    assert_eq!(interpret_status_response("{}").unwrap(), false);
    assert!(matches!(interpret_status_response("<html>"), Err(ClientError::Malformed(_))));
}

#[test]
fn status_confirmed_direct_values() {
    assert!(status_confirmed(&ResultValue::Str("confirmed".to_string())));
    assert!(!status_confirmed(&ResultValue::Str("pending".to_string())));
    assert!(!status_confirmed(&ResultValue::Bool(true)));
}

#[test]
fn balance_response_shapes() {
    let b = interpret_balance_response("{\"balance_raw\":\"1234567\",\"nonce\":3}").unwrap();
    assert_eq!(b.balance_raw, 1234567);
    assert_eq!(b.nonce, 3);
    // balance_raw must be a string holding an unsigned integer
    assert!(matches!(
        interpret_balance_response("{\"balance_raw\":12,\"nonce\":3}"),
        Err(ClientError::Malformed(_))
    ));
    // the nonce must be an unsigned integer number
    assert!(matches!(
        interpret_balance_response("{\"balance_raw\":\"12\",\"nonce\":3.5}"),
        Err(ClientError::Malformed(_))
    ));
    assert!(matches!(
        interpret_balance_response("{\"balance_raw\":\"12\"}"),
        Err(ClientError::Malformed(_))
    ));
}

#[test]
fn balance_shape_error_carries_both_fields_verbatim() {
    match interpret_balance_response("{\"balance_raw\":12,\"nonce\":3}") {
        Err(e) => assert_eq!(
            e.message(),
            "malformed balance response: balance_raw=12, nonce=3"
        ),
        Ok(_) => panic!("a numeric balance_raw must be rejected"),
    }
    match interpret_balance_response("{\"balance_raw\":\"abc\",\"nonce\":true}") {
        Err(e) => assert_eq!(
            e.message(),
            "malformed balance response: balance_raw=abc, nonce=true"
        ),
        Ok(_) => panic!("non-numeric balance text must be rejected"),
    }
}

#[test]
fn http_error_status_classes() {
    // Only the success (2xx) and redirection (3xx) classes pass;
    // informational responses are errors for this client too.
    assert!(is_error_status(100));
    assert!(is_error_status(199));
    assert!(!is_error_status(200));
    assert!(!is_error_status(302));
    assert!(!is_error_status(399));
    assert!(is_error_status(400));
    assert!(is_error_status(404));
    assert!(is_error_status(500));
}

#[test]
fn error_messages() {
    assert_eq!(
        ClientError::Transport("boom".to_string()).message(),
        "api error: boom"
    );
    assert_eq!(ClientError::Malformed("detail".to_string()).message(), "detail");
    assert_eq!(
        ClientError::UnsupportedKind("batch".to_string()).message(),
        "unknown method type"
    );
}
