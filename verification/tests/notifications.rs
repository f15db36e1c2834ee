use nerdschloss::raspberrypi::backend::logic::lock_command;
use nerdschloss::raspberrypi::backend::mattermost::client::{
    client_settings, error_response, is_error_status, request_url, ApiError, Error, ErrorBody,
};
use nerdschloss::raspberrypi::backend::mattermost::configuration::MatterMost;
use nerdschloss::raspberrypi::backend::mattermost::script_call;
use nerdschloss::raspberrypi::backend::mqtt::configuration::Mqtt;
use nerdschloss::raspberrypi::backend::mqtt::{
    client_id, payload, publish_options, publish_state, reconnect_backoff, topic, BackoffJitter,
    ConnectionLoop, PollAction, PollEvent, QualityOfService, REQUEST_CAPACITY,
};
use nerdschloss::raspberrypi::backend::spaceapi::configuration::SpaceAPI;
use nerdschloss::raspberrypi::backend::spaceapi::{spaceapi_request, status_text};
use nerdschloss::raspberrypi::hardware::motor::Direction;

#[test]
fn set_spaceapi_disabled() {
    let configuration = SpaceAPI { enable: false, ..Default::default() };
    assert!(spaceapi_request(&configuration, true).is_none());
    assert!(spaceapi_request(&configuration, false).is_none());
}

#[test]
fn set_spaceapi_enabled() {
    let configuration = SpaceAPI {
        enable: true,
        url: String::from("http://127.0.0.1:4040"),
        username: String::from("user"),
        password: String::from("pa55word"),
    };
    let request = spaceapi_request(&configuration, true).unwrap();
    assert_eq!(request.url, "http://127.0.0.1:4040?status=open");
    assert_eq!(request.username, "user");
    assert_eq!(request.password, "pa55word");
    let request = spaceapi_request(&configuration, false).unwrap();
    assert_eq!(request.url, "http://127.0.0.1:4040?status=closed");
    assert_eq!(status_text(true), "open");
    assert_eq!(status_text(false), "closed");
}

#[test]
fn test_mqtt_disabled() {
    let configuration = Mqtt::default();
    assert_eq!(publish_state(&configuration, true), None);
}

#[test]
fn test_mqtt_enabled() {
    let configuration = Mqtt {
        enable: true,
        host: "localhost".to_string(),
        port: 1883,
        username: "nerdschloss".to_string(),
        password: "nerdschloss".to_string(),
    };
    assert_eq!(publish_state(&configuration, true), Some(true));
    assert_eq!(publish_state(&configuration, false), Some(false));
    assert_eq!(payload(true), "open");
    assert_eq!(payload(false), "closed");
    assert_eq!(topic(), "gleis0/nerdschloss/lockswitch");
    assert_eq!(client_id(), "nerdschloss");
    assert_eq!(REQUEST_CAPACITY, 10);
}

#[test]
fn mqtt_connection_loop_counts_retries() {
    let mut connection = ConnectionLoop::new();
    assert_eq!(connection.attempts(), 0);
    assert_eq!(connection.step(PollEvent::Polled), PollAction::Poll);
    assert_eq!(connection.step(PollEvent::Failed), PollAction::AskPolicy(0));
    assert_eq!(connection.step(PollEvent::Retry), PollAction::WaitThenPoll);
    assert_eq!(connection.step(PollEvent::Failed), PollAction::AskPolicy(1));
    assert_eq!(connection.step(PollEvent::Retry), PollAction::WaitThenPoll);
    assert_eq!(connection.attempts(), 2);
    assert_eq!(connection.step(PollEvent::Polled), PollAction::Poll);
    assert_eq!(connection.attempts(), 0);
    assert_eq!(connection.step(PollEvent::Failed), PollAction::AskPolicy(0));
    assert_eq!(connection.step(PollEvent::DoNotRetry), PollAction::Stop);
}

fn mattermost_configuration(enable: bool) -> MatterMost {
    MatterMost {
        python: String::from("../.venv/bin/python"),
        enable,
        url: String::from("127.0.0.1"),
        loginid: String::from("clubstatus"),
        apitoken: String::from("apitoken"),
        scheme: String::from("http"),
        port: 8065,
    }
}

#[test]
fn mattermost_disabled() {
    let configuration = MatterMost { enable: false, ..Default::default() };
    assert!(script_call(&configuration, "print(1)", true).is_none());
}

#[test]
fn mattermost_state_open() {
    let call = script_call(&mattermost_configuration(true), "code", true).unwrap();
    assert_eq!(call.program, "../.venv/bin/python");
    assert_eq!(call.args[0], "-c");
    assert_eq!(call.args[2], "127.0.0.1");
    assert_eq!(call.args[3], "clubstatus");
    assert_eq!(call.args[4], "apitoken");
    assert_eq!(call.args[5], "http");
    assert_eq!(call.args[7], "true");
}

#[test]
fn mattermost_state_closed() {
    let call = script_call(&mattermost_configuration(true), "code", false).unwrap();
    assert_eq!(call.args.len(), 8);
    assert_eq!(call.args[7], "false");
}

#[test]
fn mattermost_script_arguments() {
    let call = script_call(&mattermost_configuration(true), "print(1)", true).unwrap();
    assert_eq!(call.program, "../.venv/bin/python");
    assert_eq!(
        call.args,
        vec!["-c", "print(1)", "127.0.0.1", "clubstatus", "apitoken", "http", "8065", "true"]
    );
    let call = script_call(&mattermost_configuration(true), "code", false).unwrap();
    assert_eq!(call.args[7], "false");
    assert_eq!(call.args[6], "8065");
}

#[test]
fn client_settings_for_a_token() {
    let settings = client_settings("https://chat.example.org/", "abc123").unwrap();
    assert_eq!(settings.api_base_url, "https://chat.example.org/api/");
    assert_eq!(settings.authorization, "Token abc123");
    assert_eq!(settings.media_type, "application/json");
    assert!(settings.authorization_sensitive);
    assert_eq!(
        request_url(&settings.api_base_url, "v4/users/me"),
        "https://chat.example.org/api/v4/users/me"
    );
}

#[test]
fn client_settings_refuse_control_characters() {
    assert!(client_settings("http://x/", "abc\n").is_none());
    assert!(client_settings("http://x/", "a\u{7f}b").is_none());
    assert!(client_settings("http://x/", "tab\tok").is_some());
    assert!(client_settings("http://x/", "umlaut-\u{e4}").is_some());
}

#[test]
fn error_statuses() {
    assert!(!is_error_status(200));
    assert!(!is_error_status(201));
    assert!(!is_error_status(399));
    assert!(is_error_status(400));
    assert!(is_error_status(401));
    assert!(is_error_status(404));
}

#[test]
fn error_messages() {
    match Error::sending("timeout") {
        Error::Http(m) => assert_eq!(m, "error sending request: timeout"),
        other => panic!("{other:?}"),
    }
    match Error::unreadable_error_body("eof") {
        Error::Responce(m) => assert_eq!(m, "error getting bytes from error response: eof"),
        other => panic!("{other:?}"),
    }
    match Error::unparsable_error_body("bad") {
        Error::Json(m) => assert_eq!(m, "error parsing error response: bad"),
        other => panic!("{other:?}"),
    }
    let api = Error::Api(ApiError { error_code: 401, message: String::from("Invalid token") });
    match api {
        Error::Api(e) => assert_eq!(e.message, "Invalid token"),
        other => panic!("{other:?}"),
    }
    match Error::unparsable_body("bad") {
        Error::Json(m) => assert_eq!(m, "error parsing responce bad"),
        other => panic!("{other:?}"),
    }
}

#[test]
fn raspberry_commands_move_only_towards_the_other_side() {
    assert_eq!(lock_command(Direction::Open, false), Some(Direction::Open));
    assert_eq!(lock_command(Direction::Open, true), None);
    assert_eq!(lock_command(Direction::Close, true), Some(Direction::Close));
    assert_eq!(lock_command(Direction::Close, false), None);
}

#[test]
fn mqtt_publishes_exactly_once_and_retained() {
    let options = publish_options();
    assert_eq!(options.qos, QualityOfService::ExactlyOnce);
    assert!(options.retain);
}

#[test]
fn mqtt_reconnect_backoff() {
    let backoff = reconnect_backoff();
    assert_eq!(backoff.min_retry_secs, 1);
    assert_eq!(backoff.max_retry_secs, 60);
    assert_eq!(backoff.base, 2);
    assert_eq!(backoff.jitter, BackoffJitter::Bounded);
    assert_eq!(backoff.total_retry_secs, 220_752_000);
}

#[test]
fn error_bodies() {
    match error_response(ErrorBody::Unreadable(String::from("eof"))) {
        Error::Responce(m) => assert_eq!(m, "error getting bytes from error response: eof"),
        other => panic!("{other:?}"),
    }
    match error_response(ErrorBody::NotText(String::from("bad utf-8"))) {
        Error::Responce(m) => assert_eq!(m, "error getting bytes from error response: bad utf-8"),
        other => panic!("{other:?}"),
    }
    match error_response(ErrorBody::Unparsable(String::from("eof"))) {
        Error::Json(m) => assert_eq!(m, "error parsing error response: eof"),
        other => panic!("{other:?}"),
    }
    let api = ApiError { error_code: 404, message: String::from("Team not found") };
    match error_response(ErrorBody::Parsed(api)) {
        Error::Api(e) => {
            assert_eq!(e.error_code, 404);
            assert_eq!(e.message, "Team not found");
        }
        other => panic!("{other:?}"),
    }
}
