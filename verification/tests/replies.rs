use twitch_predictions::error::{ApiError, ErrorKind};
use twitch_predictions::model::TokenResponse;
use twitch_predictions::outcome::{
    cancel_prediction_outcome, create_twitch_prediction_outcome, end_prediction_outcome,
    exchange_code_for_tokens_outcome, fetch_client_credentials_token_outcome, first_items,
    get_last_predictions_outcome, get_user_data_outcome, refresh_tokens_outcome, NO_PREDICTIONS,
};
use twitch_predictions::status::{decimal_string, status_heading_text};
use twitch_predictions::wire::HttpResponse;

fn response(status: u16, body: &str) -> Result<HttpResponse, String> {
    Ok(HttpResponse::new(status, body.to_string()))
}

fn five() -> &'static str {
    "{\"data\":[{\"id\":\"p1\"},{\"id\":\"p2\"},{\"id\":\"p3\"},{\"id\":\"p4\"},{\"id\":\"p5\"}]}"
}

#[test]
fn recent_predictions_are_cut_to_the_first_three_in_the_platforms_order() {
    let reply = get_last_predictions_outcome(3, response(200, five()));
    assert_eq!(reply, Ok("[{\"id\":\"p1\"},{\"id\":\"p2\"},{\"id\":\"p3\"}]".to_string()));
}

#[test]
fn recent_predictions_with_amount_zero_fail_as_empty() {
    let reply = get_last_predictions_outcome(0, response(200, five()));
    let error = reply.unwrap_err();
    assert_eq!(error.kind, ErrorKind::EmptyResult);
    assert_eq!(error.status, Some(200));
    assert_eq!(error.body, five());
    assert_eq!(error.message, NO_PREDICTIONS);
    assert_eq!(error.message, "{\"error\": \"No predictions found, returned vector is empty.\"}");
}

#[test]
fn the_empty_message_is_itself_json() {
    let parsed: serde_json::Value = serde_json::from_str(NO_PREDICTIONS).unwrap();
    assert!(parsed.get("error").is_some());
}

#[test]
fn recent_predictions_with_a_larger_amount_yield_all_there_are() {
    let reply = get_last_predictions_outcome(9, response(200, "{\"data\":[{\"id\":\"p1\"},7]}"));
    assert_eq!(reply, Ok("[{\"id\":\"p1\"},7]".to_string()));
}

#[test]
fn recent_predictions_with_the_largest_amount_yield_all_there_are() {
    let reply = get_last_predictions_outcome(u32::MAX, response(200, five()));
    assert_eq!(
        reply,
        Ok("[{\"id\":\"p1\"},{\"id\":\"p2\"},{\"id\":\"p3\"},{\"id\":\"p4\"},{\"id\":\"p5\"}]"
            .to_string())
    );
}

#[test]
fn recent_predictions_with_an_empty_list_fail_as_empty() {
    let error = get_last_predictions_outcome(1, response(200, "{\"data\":[]}")).unwrap_err();
    assert_eq!(error.kind, ErrorKind::EmptyResult);
}

#[test]
fn recent_predictions_without_a_data_array_fail_as_empty() {
    for body in ["{}", "{\"data\":\"x\"}", "[1,2]", "{\"other\":[1]}", "null"] {
        let error = get_last_predictions_outcome(1, response(200, body)).unwrap_err();
        assert_eq!(error.kind, ErrorKind::EmptyResult);
        assert_eq!(error.message, NO_PREDICTIONS);
    }
}

#[test]
fn recent_predictions_with_a_body_that_is_no_json_fail_to_decode() {
    let error = get_last_predictions_outcome(1, response(200, "<html>")).unwrap_err();
    assert_eq!(error.kind, ErrorKind::Decode);
    assert_eq!(error.status, Some(200));
    assert_eq!(error.body, "<html>");
    let expected = serde_json::from_str::<serde_json::Value>("<html>").unwrap_err().to_string();
    assert_eq!(error.message, expected);
}

#[test]
fn recent_predictions_hand_a_401_on_as_a_success() {
    let body = "{\"error\":\"Unauthorized\",\"status\":401,\"message\":\"Invalid OAuth token\"}";
    let reply = get_last_predictions_outcome(3, response(401, body));
    assert_eq!(reply, Ok(body.to_string()));
}

#[test]
fn recent_predictions_hand_a_401_on_even_where_the_body_is_no_json() {
    assert_eq!(get_last_predictions_outcome(0, response(401, "")), Ok(String::new()));
}

#[test]
fn recent_predictions_report_other_statuses_as_failures() {
    let error = get_last_predictions_outcome(3, response(500, "boom")).unwrap_err();
    assert_eq!(
        error,
        ApiError {
            kind: ErrorKind::HttpStatus,
            status: Some(500),
            body: "boom".to_string(),
            message: "500 Internal Server Error: boom".to_string(),
        }
    );
}

#[test]
fn recent_predictions_without_a_response_fail_in_transport() {
    let error = get_last_predictions_outcome(3, Err("connection refused".to_string())).unwrap_err();
    assert_eq!(
        error,
        ApiError {
            kind: ErrorKind::Transport,
            status: None,
            body: String::new(),
            message: "connection refused".to_string(),
        }
    );
}

#[test]
fn first_items_keeps_the_order_and_stops_at_the_amount() {
    let items = vec![10, 20, 30, 40, 50];
    assert_eq!(first_items(&items, 3), vec![&10, &20, &30]);
    assert_eq!(first_items(&items, 5), vec![&10, &20, &30, &40, &50]);
    assert_eq!(first_items(&items, 6), vec![&10, &20, &30, &40, &50]);
    assert!(first_items(&items, 0).is_empty());
    assert!(first_items(&Vec::<u8>::new(), 4).is_empty());
}

#[test]
fn a_success_yields_the_body_as_it_came() {
    let body = "{\"data\":[{\"id\":\"p1\"}]}";
    assert_eq!(create_twitch_prediction_outcome(response(200, body)), Ok(body.to_string()));
    assert_eq!(get_user_data_outcome(response(204, "")), Ok(String::new()));
    assert_eq!(exchange_code_for_tokens_outcome(response(299, "x")), Ok("x".to_string()));
    assert_eq!(fetch_client_credentials_token_outcome(response(201, "y")), Ok("y".to_string()));
    assert_eq!(cancel_prediction_outcome(response(200, body)), Ok(body.to_string()));
    assert_eq!(end_prediction_outcome(response(200, body)), Ok(body.to_string()));
}

#[test]
fn the_success_class_ends_at_299() {
    assert!(create_twitch_prediction_outcome(response(199, "")).is_err());
    assert!(create_twitch_prediction_outcome(response(200, "")).is_ok());
    assert!(create_twitch_prediction_outcome(response(299, "")).is_ok());
    assert!(create_twitch_prediction_outcome(response(300, "")).is_err());
}

#[test]
fn a_failure_by_status_carries_status_and_body() {
    let body = "{\"error\":\"Bad Request\",\"status\":400,\"message\":\"no\"}";
    let error = create_twitch_prediction_outcome(response(400, body)).unwrap_err();
    assert_eq!(
        error,
        ApiError {
            kind: ErrorKind::HttpStatus,
            status: Some(400),
            body: body.to_string(),
            message: format!("400 Bad Request: {}", body),
        }
    );
    assert_eq!(
        get_user_data_outcome(response(404, "gone")).unwrap_err().message,
        "404 Not Found: gone"
    );
    assert_eq!(
        exchange_code_for_tokens_outcome(response(403, "no")).unwrap_err().message,
        "403 Forbidden: no"
    );
    assert_eq!(
        fetch_client_credentials_token_outcome(response(500, "no")).unwrap_err().message,
        "500 Internal Server Error: no"
    );
    assert_eq!(
        fetch_client_credentials_token_outcome(response(500, "no")).unwrap_err().kind,
        ErrorKind::HttpStatus
    );
}

#[test]
fn a_401_is_classified_as_an_expired_authorization() {
    let error = create_twitch_prediction_outcome(response(401, "expired")).unwrap_err();
    assert_eq!(error.kind, ErrorKind::AuthExpired);
    assert_eq!(error.status, Some(401));
    assert_eq!(error.body, "expired");
    assert_eq!(error.message, "401 Unauthorized: expired");
    assert_eq!(
        cancel_prediction_outcome(response(401, "x")).unwrap_err().kind,
        ErrorKind::AuthExpired
    );
}

#[test]
fn the_status_stands_before_the_body_with_its_reason_phrase() {
    let error = cancel_prediction_outcome(response(404, "{\"message\":\"none\"}")).unwrap_err();
    assert_eq!(error.kind, ErrorKind::HttpStatus);
    assert_eq!(error.body, "{\"message\":\"none\"}");
    assert_eq!(error.message, "404 Not Found: {\"message\":\"none\"}");
    let error = end_prediction_outcome(response(401, "expired")).unwrap_err();
    assert_eq!(error.message, "401 Unauthorized: expired");
    let error = end_prediction_outcome(response(500, "")).unwrap_err();
    assert_eq!(error.message, "500 Internal Server Error: ");
}

#[test]
fn a_status_without_a_reason_phrase_is_printed_as_unknown() {
    let error = cancel_prediction_outcome(response(599, "b")).unwrap_err();
    assert_eq!(error.message, "599 <unknown status code>: b");
}

#[test]
fn a_number_that_is_no_status_code_is_named_by_its_digits_alone() {
    for status in [0u16, 7, 42, 99, 1000, 40100, u16::MAX] {
        let error = cancel_prediction_outcome(response(status, "body")).unwrap_err();
        assert_eq!(error.status, Some(status));
        assert_eq!(error.message, format!("{}: body", status));
        let error = create_twitch_prediction_outcome(response(status, "body")).unwrap_err();
        assert_eq!(error.message, format!("{}: body", status));
    }
    assert_eq!(
        get_user_data_outcome(response(0, "b")).unwrap_err().message,
        "0: b"
    );
    assert_eq!(
        get_last_predictions_outcome(1, response(u16::MAX, "b")).unwrap_err().message,
        "65535: b"
    );
    assert_eq!(
        cancel_prediction_outcome(response(100, "b")).unwrap_err().message,
        "100 Continue: b"
    );
    assert_eq!(
        cancel_prediction_outcome(response(999, "b")).unwrap_err().message,
        "999 <unknown status code>: b"
    );
}

#[test]
fn no_response_is_a_transport_failure() {
    let error = cancel_prediction_outcome(Err("timed out".to_string())).unwrap_err();
    assert_eq!(error, ApiError::transport("timed out".to_string()));
    assert_eq!(error.kind, ErrorKind::Transport);
    assert_eq!(error.status, None);
    assert_eq!(error.message, "timed out");
    assert_eq!(
        refresh_tokens_outcome(Err("dns".to_string())).unwrap_err().kind,
        ErrorKind::Transport
    );
}

#[test]
fn refresh_decodes_a_well_formed_body() {
    let body = "{\"access_token\":\"tok2\",\"refresh_token\":\"r2\",\"expires_in\":14400}";
    assert_eq!(
        refresh_tokens_outcome(response(200, body)),
        Ok(TokenResponse { access_token: "tok2".to_string(), refresh_token: "r2".to_string() })
    );
}

#[test]
fn refresh_fails_to_decode_a_malformed_body() {
    let error = refresh_tokens_outcome(response(200, "{\"access_token\":")).unwrap_err();
    assert_eq!(error.kind, ErrorKind::Decode);
    assert_eq!(error.status, Some(200));
    assert_eq!(error.body, "{\"access_token\":");
    let expected =
        serde_json::from_str::<serde_json::Value>("{\"access_token\":").unwrap_err().to_string();
    assert_eq!(error.message, expected);
}

#[test]
fn refresh_fails_to_decode_a_body_without_an_access_token() {
    let error = refresh_tokens_outcome(response(200, "{\"refresh_token\":\"r2\"}")).unwrap_err();
    assert_eq!(error.kind, ErrorKind::Decode);
    assert_eq!(error.message, "missing field `access_token`");
}

#[test]
fn refresh_fails_to_decode_a_body_without_a_refresh_token() {
    let error = refresh_tokens_outcome(response(200, "{\"access_token\":\"t\"}")).unwrap_err();
    assert_eq!(error.kind, ErrorKind::Decode);
    assert_eq!(error.message, "missing field `refresh_token`");
}

#[test]
fn refresh_fails_to_decode_tokens_that_are_no_strings() {
    let body = "{\"access_token\":1,\"refresh_token\":\"r\"}";
    let error = refresh_tokens_outcome(response(200, body)).unwrap_err();
    assert_eq!(error.kind, ErrorKind::Decode);
    assert_eq!(error.message, "missing field `access_token`");
    let error = refresh_tokens_outcome(response(200, "[\"a\",\"b\"]")).unwrap_err();
    assert_eq!(error.kind, ErrorKind::Decode);
}

#[test]
fn refresh_reports_a_status_outside_the_success_class() {
    let body = "{\"status\":400,\"message\":\"Invalid refresh token\"}";
    let error = refresh_tokens_outcome(response(400, body)).unwrap_err();
    assert_eq!(error.kind, ErrorKind::HttpStatus);
    assert_eq!(error.status, Some(400));
    assert_eq!(error.body, body);
    assert_eq!(error.message, format!("400 Bad Request: {}", body));
}

#[test]
fn tokens_are_decoded_from_a_text() {
    assert_eq!(
        TokenResponse::decode("{\"refresh_token\":\"r\",\"access_token\":\"a\"}"),
        Ok(TokenResponse { access_token: "a".to_string(), refresh_token: "r".to_string() })
    );
    assert!(TokenResponse::decode("").is_err());
}

#[test]
fn tokens_are_made_of_two_texts() {
    assert_eq!(
        TokenResponse::from_fields(Some("a"), Some("r")),
        Ok(TokenResponse { access_token: "a".to_string(), refresh_token: "r".to_string() })
    );
    assert_eq!(
        TokenResponse::from_fields(None, Some("r")),
        Err("missing field `access_token`".to_string())
    );
    assert_eq!(
        TokenResponse::from_fields(None, None),
        Err("missing field `access_token`".to_string())
    );
    assert_eq!(
        TokenResponse::from_fields(Some("a"), None),
        Err("missing field `refresh_token`".to_string())
    );
}

#[test]
fn a_failure_becomes_a_refresh_failure_with_its_payload() {
    let cause = create_twitch_prediction_outcome(response(400, "bad")).unwrap_err();
    let failure = cause.into_refresh_failure();
    assert_eq!(
        failure,
        ApiError {
            kind: ErrorKind::RefreshFailed,
            status: Some(400),
            body: "bad".to_string(),
            message: "400 Bad Request: bad".to_string(),
        }
    );
}

#[test]
fn every_operation_names_the_status_of_a_failure_and_ends_with_the_body() {
    let body = "{\"error\":\"Bad Request\",\"status\":400,\"message\":\"x\"}";
    let expected = format!("400 Bad Request: {}", body);
    let messages = [
        exchange_code_for_tokens_outcome(response(400, body)).unwrap_err().message,
        fetch_client_credentials_token_outcome(response(400, body)).unwrap_err().message,
        refresh_tokens_outcome(response(400, body)).unwrap_err().message,
        get_user_data_outcome(response(400, body)).unwrap_err().message,
        create_twitch_prediction_outcome(response(400, body)).unwrap_err().message,
        cancel_prediction_outcome(response(400, body)).unwrap_err().message,
        end_prediction_outcome(response(400, body)).unwrap_err().message,
        get_last_predictions_outcome(3, response(400, body)).unwrap_err().message,
    ];
    for message in messages {
        assert_eq!(message, expected);
    }
}

#[test]
fn the_message_of_every_status_outside_the_success_class_holds_its_digits_and_the_body() {
    for status in 0..=u16::MAX {
        if (200..=299).contains(&status) {
            let reply = create_twitch_prediction_outcome(response(status, "b"));
            assert_eq!(reply, Ok("b".to_string()));
            continue;
        }
        let error = create_twitch_prediction_outcome(response(status, "the body")).unwrap_err();
        assert_eq!(error.status, Some(status));
        assert!(error.message.starts_with(&status.to_string()));
        assert!(error.message.ends_with(": the body"));
        if status != 401 {
            let recent = get_last_predictions_outcome(1, response(status, "the body"));
            assert_eq!(recent.unwrap_err().message, error.message);
        }
    }
}

#[test]
fn a_number_is_printed_in_decimal_digits() {
    assert_eq!(decimal_string(0), "0");
    assert_eq!(decimal_string(7), "7");
    assert_eq!(decimal_string(10), "10");
    assert_eq!(decimal_string(99), "99");
    assert_eq!(decimal_string(100), "100");
    assert_eq!(decimal_string(401), "401");
    assert_eq!(decimal_string(1000), "1000");
    assert_eq!(decimal_string(65535), "65535");
    for number in 0..=u16::MAX {
        assert_eq!(decimal_string(number), number.to_string());
    }
}

#[test]
fn a_status_is_named_by_its_number_and_its_reason_phrase() {
    assert_eq!(status_heading_text(200), "200 OK");
    assert_eq!(status_heading_text(400), "400 Bad Request");
    assert_eq!(status_heading_text(401), "401 Unauthorized");
    assert_eq!(status_heading_text(429), "429 Too Many Requests");
    assert_eq!(status_heading_text(100), "100 Continue");
    assert_eq!(status_heading_text(999), "999 <unknown status code>");
    assert_eq!(status_heading_text(99), "99");
    assert_eq!(status_heading_text(1000), "1000");
    assert_eq!(status_heading_text(0), "0");
}
