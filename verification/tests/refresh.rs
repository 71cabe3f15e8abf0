use twitch_predictions::call::ApiCall;
use twitch_predictions::credentials::{Credentials, CANNOT_REFRESH};
use twitch_predictions::error::{ApiError, ErrorKind};
use twitch_predictions::gate::{Gate, GateAction, GateEvent, Phase};
use twitch_predictions::model::{Outcome, TokenResponse, TwitchPrediction};
use twitch_predictions::outcome::NO_PREDICTIONS;
use twitch_predictions::wire::{Body, HttpRequest, HttpResponse, Pair};

fn create_call() -> ApiCall {
    ApiCall::CreatePrediction {
        client_id: "abc".to_string(),
        prediction: TwitchPrediction {
            title: "Will it rain?".to_string(),
            outcomes: vec![
                Outcome { title: "Yes".to_string() },
                Outcome { title: "No".to_string() },
            ],
            prediction_window: 90,
            broadcaster_id: "141981764".to_string(),
        },
    }
}

fn bearer_of(request: &HttpRequest) -> String {
    assert_eq!(request.headers[1].name, "Authorization");
    request.headers[1].value.clone()
}

fn response(status: u16, body: &str) -> GateEvent {
    GateEvent::Response(HttpResponse::new(status, body.to_string()))
}

fn sent(action: GateAction) -> HttpRequest {
    match action {
        GateAction::Send(request) => request,
        other => panic!("a request was to be sent, not {:?}", other),
    }
}

#[test]
fn an_expired_token_is_refreshed_and_the_prediction_is_created_with_the_new_one() {
    let (mut gate, first) = Gate::start(create_call(), "tok1".to_string());
    assert_eq!(first.headers[0], Pair { name: "Client-Id".to_string(), value: "abc".to_string() });
    assert_eq!(bearer_of(&first), "Bearer tok1");
    assert_eq!(gate.token(), "tok1");
    assert_eq!(gate.phase(), Phase::Sending);

    let action = gate.step(response(401, "{\"status\":401}"));
    assert_eq!(action, GateAction::Refresh);
    assert_eq!(gate.phase(), Phase::Refreshing);
    assert_eq!(gate.token(), "tok1");

    let second = sent(gate.step(GateEvent::Refreshed("tok2".to_string())));
    assert_eq!(bearer_of(&second), "Bearer tok2");
    assert_eq!(second, create_call().request("tok2"));
    assert_eq!(gate.token(), "tok2");
    assert_eq!(gate.phase(), Phase::Retrying);

    let body = "{\"data\":[{\"id\":\"p1\"}]}";
    let action = gate.step(response(200, body));
    assert_eq!(action, GateAction::Finish(Ok(HttpResponse::new(200, body.to_string()))));
    assert!(gate.is_finished());
    assert_eq!(gate.token(), "tok2");

    match action {
        GateAction::Finish(Ok(last)) => {
            assert_eq!(gate.call().interpret(last), Ok(body.to_string()));
        }
        _ => unreachable!(),
    }
}

#[test]
fn the_second_request_differs_from_the_first_in_the_token_alone() {
    let (mut gate, first) = Gate::start(create_call(), "tok1".to_string());
    gate.step(response(401, ""));
    let second = sent(gate.step(GateEvent::Refreshed("tok2".to_string())));
    assert_eq!(first.method, second.method);
    assert_eq!(first.url, second.url);
    assert_eq!(first.query, second.query);
    assert_eq!(first.body, second.body);
    assert_eq!(first.headers[0], second.headers[0]);
    assert_ne!(first.headers[1], second.headers[1]);
}

#[test]
fn a_401_brings_one_refresh_and_one_retry_and_never_a_third_request() {
    let (mut gate, _first) = Gate::start(create_call(), "tok1".to_string());
    let mut sends = 0;
    let mut refreshes = 0;
    let mut finishes = 0;
    let events = vec![
        response(401, "first"),
        GateEvent::Refreshed("tok2".to_string()),
        response(401, "second"),
        response(401, "third"),
        GateEvent::Refreshed("tok3".to_string()),
        GateEvent::RefreshFailed(ApiError::transport("late".to_string())),
        GateEvent::TransportFailed("late".to_string()),
        response(200, "late"),
    ];
    let mut actions = Vec::new();
    for event in events {
        let action = gate.step(event);
        match &action {
            GateAction::Send(_) => sends += 1,
            GateAction::Refresh => refreshes += 1,
            GateAction::Finish(_) => finishes += 1,
            GateAction::Idle => {}
        }
        actions.push(action);
    }
    assert_eq!(refreshes, 1);
    assert_eq!(sends, 1);
    assert_eq!(finishes, 1);
    assert_eq!(actions[2], GateAction::Finish(Ok(HttpResponse::new(401, "second".to_string()))));
    for action in &actions[3..] {
        assert_eq!(*action, GateAction::Idle);
    }
    assert_eq!(gate.token(), "tok2");
    assert!(gate.is_finished());
}

#[test]
fn a_second_401_is_handed_on_and_reported_by_the_operation() {
    let (mut gate, _first) = Gate::start(create_call(), "tok1".to_string());
    gate.step(response(401, "first"));
    gate.step(GateEvent::Refreshed("tok2".to_string()));
    match gate.step(response(401, "second")) {
        GateAction::Finish(Ok(last)) => {
            let error = gate.call().interpret(last).unwrap_err();
            assert_eq!(error.kind, ErrorKind::AuthExpired);
            assert_eq!(error.message, "401 Unauthorized: second");
        }
        other => panic!("the call was to end, not {:?}", other),
    }
}

#[test]
fn a_failed_refresh_ends_the_call_with_the_refresh_failure() {
    let (mut gate, _first) = Gate::start(create_call(), "tok1".to_string());
    assert_eq!(gate.step(response(401, "expired")), GateAction::Refresh);
    let cause = ApiError {
        kind: ErrorKind::HttpStatus,
        status: Some(400),
        body: "{\"message\":\"Invalid refresh token\"}".to_string(),
        message: "400 Bad Request: {\"message\":\"Invalid refresh token\"}".to_string(),
    };
    let action = gate.step(GateEvent::RefreshFailed(cause));
    assert_eq!(
        action,
        GateAction::Finish(Err(ApiError {
            kind: ErrorKind::RefreshFailed,
            status: Some(400),
            body: "{\"message\":\"Invalid refresh token\"}".to_string(),
            message: "400 Bad Request: {\"message\":\"Invalid refresh token\"}".to_string(),
        }))
    );
    assert!(gate.is_finished());
    assert_eq!(gate.token(), "tok1");
    assert_eq!(gate.step(GateEvent::Refreshed("tok2".to_string())), GateAction::Idle);
    assert_eq!(gate.step(response(200, "late")), GateAction::Idle);
    assert_eq!(gate.token(), "tok1");
}

#[test]
fn a_refresh_that_fails_in_transport_is_a_refresh_failure() {
    let (mut gate, _first) = Gate::start(create_call(), "tok1".to_string());
    gate.step(response(401, "expired"));
    let action = gate.step(GateEvent::RefreshFailed(ApiError::transport("reset".to_string())));
    match action {
        GateAction::Finish(Err(error)) => {
            assert_eq!(error.kind, ErrorKind::RefreshFailed);
            assert_eq!(error.status, None);
            assert_eq!(error.message, "reset");
        }
        other => panic!("the call was to fail, not {:?}", other),
    }
}

#[test]
fn a_first_response_that_is_no_401_ends_the_call_without_a_refresh() {
    for status in [200u16, 204, 400, 403, 404, 500] {
        let (mut gate, _first) = Gate::start(create_call(), "tok1".to_string());
        let action = gate.step(response(status, "body"));
        assert_eq!(action, GateAction::Finish(Ok(HttpResponse::new(status, "body".to_string()))));
        assert!(gate.is_finished());
        assert_eq!(gate.token(), "tok1");
        assert_eq!(gate.step(GateEvent::Refreshed("tok2".to_string())), GateAction::Idle);
        assert_eq!(gate.token(), "tok1");
    }
}

#[test]
fn a_first_request_without_a_response_fails_in_transport_without_a_refresh() {
    let (mut gate, _first) = Gate::start(create_call(), "tok1".to_string());
    let action = gate.step(GateEvent::TransportFailed("connection refused".to_string()));
    assert_eq!(
        action,
        GateAction::Finish(Err(ApiError::transport("connection refused".to_string())))
    );
    assert!(gate.is_finished());
    assert_eq!(gate.step(response(401, "late")), GateAction::Idle);
}

#[test]
fn a_second_request_without_a_response_fails_in_transport() {
    let (mut gate, _first) = Gate::start(create_call(), "tok1".to_string());
    gate.step(response(401, ""));
    gate.step(GateEvent::Refreshed("tok2".to_string()));
    let action = gate.step(GateEvent::TransportFailed("timed out".to_string()));
    assert_eq!(action, GateAction::Finish(Err(ApiError::transport("timed out".to_string()))));
    assert_eq!(gate.token(), "tok2");
}

#[test]
fn an_event_that_is_not_awaited_changes_nothing() {
    let (mut gate, _first) = Gate::start(create_call(), "tok1".to_string());
    assert_eq!(gate.step(GateEvent::Refreshed("early".to_string())), GateAction::Idle);
    assert_eq!(
        gate.step(GateEvent::RefreshFailed(ApiError::transport("early".to_string()))),
        GateAction::Idle
    );
    assert_eq!(gate.phase(), Phase::Sending);
    assert_eq!(gate.token(), "tok1");
    gate.step(response(401, ""));
    assert_eq!(gate.step(response(200, "early")), GateAction::Idle);
    assert_eq!(gate.step(GateEvent::TransportFailed("early".to_string())), GateAction::Idle);
    assert_eq!(gate.phase(), Phase::Refreshing);
}

#[test]
fn each_operation_builds_its_own_request() {
    let user = ApiCall::FetchUser { client_id: "abc".to_string(), username: "u".to_string() };
    assert_eq!(
        user.request("t"),
        twitch_predictions::api::get_user_data("abc".to_string(), "t".to_string(), "u".to_string())
    );
    let recent = ApiCall::RecentPredictions {
        amount: 2,
        client_id: "abc".to_string(),
        broadcaster_id: "b".to_string(),
    };
    assert_eq!(
        recent.request("t"),
        twitch_predictions::api::get_last_predictions(
            2,
            "abc".to_string(),
            "t".to_string(),
            "b".to_string()
        )
    );
    let cancel = ApiCall::CancelPrediction {
        client_id: "abc".to_string(),
        broadcaster_id: "b".to_string(),
        id: "p".to_string(),
    };
    assert_eq!(
        cancel.request("t"),
        twitch_predictions::api::cancel_prediction(
            "abc".to_string(),
            "t".to_string(),
            "b".to_string(),
            "p".to_string()
        )
    );
    let end = ApiCall::EndPrediction {
        client_id: "abc".to_string(),
        broadcaster_id: "b".to_string(),
        id: "p".to_string(),
        winning_outcome_id: "o".to_string(),
    };
    assert_eq!(
        end.request("t"),
        twitch_predictions::api::end_prediction(
            "abc".to_string(),
            "t".to_string(),
            "b".to_string(),
            "p".to_string(),
            "o".to_string()
        )
    );
    assert_eq!(
        create_call().request("t"),
        twitch_predictions::api::create_twitch_prediction(
            "abc".to_string(),
            "t".to_string(),
            match create_call() {
                ApiCall::CreatePrediction { prediction, .. } => prediction,
                _ => unreachable!(),
            }
        )
    );
}

#[test]
fn each_operation_interprets_a_response_by_its_own_rule() {
    let recent = ApiCall::RecentPredictions {
        amount: 1,
        client_id: "abc".to_string(),
        broadcaster_id: "b".to_string(),
    };
    assert_eq!(
        recent.interpret(HttpResponse::new(200, "{\"data\":[1,2]}".to_string())),
        Ok("[1]".to_string())
    );
    assert_eq!(recent.interpret(HttpResponse::new(401, "raw".to_string())), Ok("raw".to_string()));
    assert_eq!(
        recent.interpret(HttpResponse::new(200, "{}".to_string())).unwrap_err().message,
        NO_PREDICTIONS
    );
    let cancel = ApiCall::CancelPrediction {
        client_id: "abc".to_string(),
        broadcaster_id: "b".to_string(),
        id: "p".to_string(),
    };
    assert_eq!(
        cancel.interpret(HttpResponse::new(400, "no".to_string())).unwrap_err().message,
        "400 Bad Request: no"
    );
    let end = ApiCall::EndPrediction {
        client_id: "abc".to_string(),
        broadcaster_id: "b".to_string(),
        id: "p".to_string(),
        winning_outcome_id: "o".to_string(),
    };
    assert_eq!(
        end.interpret(HttpResponse::new(403, "no".to_string())).unwrap_err().message,
        "403 Forbidden: no"
    );
    let user = ApiCall::FetchUser { client_id: "abc".to_string(), username: "u".to_string() };
    assert_eq!(
        user.interpret(HttpResponse::new(400, "no".to_string())).unwrap_err().message,
        "400 Bad Request: no"
    );
    assert_eq!(
        recent.interpret(HttpResponse::new(503, "no".to_string())).unwrap_err().message,
        "503 Service Unavailable: no"
    );
    assert_eq!(
        create_call().interpret(HttpResponse::new(401, "no".to_string())).unwrap_err().kind,
        ErrorKind::AuthExpired
    );
}

fn held() -> Credentials {
    Credentials::new(
        "abc".to_string(),
        Some("s3cret".to_string()),
        "tok1".to_string(),
        Some("r1".to_string()),
    )
}

#[test]
fn credentials_build_their_refresh_request() {
    let request = held().refresh_request().unwrap();
    assert_eq!(
        request,
        twitch_predictions::api::refresh_tokens(
            "abc".to_string(),
            "s3cret".to_string(),
            "r1".to_string()
        )
    );
    match request.body {
        Body::Form(fields) => assert_eq!(fields[3].value, "r1"),
        _ => panic!("a token request carries a form"),
    }
}

#[test]
fn credentials_without_a_secret_or_a_refresh_token_cannot_refresh() {
    let no_secret =
        Credentials::new("abc".to_string(), None, "tok1".to_string(), Some("r1".to_string()));
    assert_eq!(no_secret.refresh_request(), None);
    let no_token =
        Credentials::new("abc".to_string(), Some("s".to_string()), "tok1".to_string(), None);
    assert_eq!(no_token.refresh_request(), None);
    assert_eq!(no_token.refresh_token(), None);
    assert_eq!(
        Credentials::cannot_refresh(),
        GateEvent::RefreshFailed(ApiError {
            kind: ErrorKind::RefreshFailed,
            status: None,
            body: String::new(),
            message: CANNOT_REFRESH.to_string(),
        })
    );
}

#[test]
fn a_refresh_that_brings_tokens_replaces_both() {
    let mut credentials = held();
    let body = "{\"access_token\":\"tok2\",\"refresh_token\":\"r2\"}";
    let event = credentials.settle_refresh(Ok(HttpResponse::new(200, body.to_string())));
    assert_eq!(event, GateEvent::Refreshed("tok2".to_string()));
    assert_eq!(credentials.access_token(), "tok2");
    assert_eq!(credentials.refresh_token(), Some("r2"));
    assert_eq!(credentials.client_id(), "abc");
    assert_eq!(
        credentials,
        Credentials::new(
            "abc".to_string(),
            Some("s3cret".to_string()),
            "tok2".to_string(),
            Some("r2".to_string())
        )
    );
}

#[test]
fn a_refresh_that_fails_leaves_the_credentials_as_they_were() {
    let mut credentials = held();
    let event = credentials.settle_refresh(Ok(HttpResponse::new(400, "bad".to_string())));
    match event {
        GateEvent::RefreshFailed(cause) => {
            assert_eq!(cause.kind, ErrorKind::HttpStatus);
            assert_eq!(cause.status, Some(400));
            assert_eq!(cause.body, "bad");
            assert_eq!(cause.message, "400 Bad Request: bad");
        }
        other => panic!("the refresh was to fail, not {:?}", other),
    }
    assert_eq!(credentials, held());
    let event = credentials.settle_refresh(Err("dns".to_string()));
    assert_eq!(event, GateEvent::RefreshFailed(ApiError::transport("dns".to_string())));
    let event = credentials.settle_refresh(Ok(HttpResponse::new(200, "{}".to_string())));
    match event {
        GateEvent::RefreshFailed(cause) => assert_eq!(cause.kind, ErrorKind::Decode),
        other => panic!("the refresh was to fail, not {:?}", other),
    }
    assert_eq!(credentials, held());
}

#[test]
fn tokens_are_replaced_by_hand() {
    let mut credentials =
        Credentials::new("abc".to_string(), None, "tok1".to_string(), None);
    credentials.replace_tokens(TokenResponse {
        access_token: "tok2".to_string(),
        refresh_token: "r2".to_string(),
    });
    assert_eq!(credentials.access_token(), "tok2");
    assert_eq!(credentials.refresh_token(), Some("r2"));
}

#[test]
fn a_whole_call_with_a_refresh_through_the_credentials() {
    let mut credentials = held();
    let (mut gate, first) = Gate::start(create_call(), credentials.access_token().to_string());
    assert_eq!(bearer_of(&first), "Bearer tok1");
    assert_eq!(gate.step(response(401, "expired")), GateAction::Refresh);
    assert!(credentials.refresh_request().is_some());
    let event = credentials.settle_refresh(Ok(HttpResponse::new(
        200,
        "{\"access_token\":\"tok2\",\"refresh_token\":\"r2\"}".to_string(),
    )));
    let second = sent(gate.step(event));
    assert_eq!(bearer_of(&second), "Bearer tok2");
    assert_eq!(gate.token(), credentials.access_token());
}

#[test]
fn what_came_back_for_a_request_is_told_as_an_event() {
    assert_eq!(
        GateEvent::from_delivery(Ok(HttpResponse::new(200, "ok".to_string()))),
        GateEvent::Response(HttpResponse::new(200, "ok".to_string()))
    );
    assert_eq!(
        GateEvent::from_delivery(Err("dns".to_string())),
        GateEvent::TransportFailed("dns".to_string())
    );
}

#[test]
fn a_call_concludes_with_what_its_operation_makes_of_the_last_response() {
    let (gate, _first) = Gate::start(create_call(), "tok1".to_string());
    assert_eq!(
        gate.conclude(Ok(HttpResponse::new(200, "body".to_string()))),
        Ok("body".to_string())
    );
    let error = gate.conclude(Ok(HttpResponse::new(400, "bad".to_string()))).unwrap_err();
    assert_eq!(error.kind, ErrorKind::HttpStatus);
    assert_eq!(error.message, "400 Bad Request: bad");
    let failure = ApiError::transport("reset".to_string()).into_refresh_failure();
    assert_eq!(gate.conclude(Err(failure.clone())), Err(failure));
}
