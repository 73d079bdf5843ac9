use experience_plugin::create::{
    begin_create, create_experience, failure, success, ConfigData, CreateAction, CreateEvent,
    CreateState, ErrorReport, Response,
};
use experience_plugin::error::{
    ApiError, STATUS_INTERNAL_SERVER_ERROR, STATUS_OK, STATUS_UNAUTHORIZED,
};
use experience_plugin::event::{CreateExperienceRequest, DatabaseExperience, Event, PluginKind};
use experience_plugin::server::{ConfigError, Plugin};
use experience_plugin::timing::{Instant, TimeRange, Timing};
use experience_plugin::upstream::{
    cookie_for, decode_reply, reply_of, UpstreamCall, UpstreamReply,
};

fn config() -> ConfigData {
    ConfigData { password: "hunter2".to_string(), url: "https://experiences.example".to_string() }
}

fn request() -> CreateExperienceRequest {
    CreateExperienceRequest {
        name: "Summit".to_string(),
        time: Timing::Instant(Instant::new(1_700_000_000, 0).unwrap()),
    }
}

fn respond(status: u16, error: ApiError) -> CreateAction {
    CreateAction::Respond(Response { status, result: Err(error) })
}

/// Runs a flow on the events in turn, and returns the actions asked for.
fn run(events: Vec<CreateEvent>) -> Vec<CreateAction> {
    let mut state = begin_create(request(), config());
    let mut actions = Vec::new();
    for event in events {
        let (next, action) = create_experience(state, event);
        state = next;
        actions.push(action);
    }
    actions
}

fn touches_upstream_or_store(action: &CreateAction) -> bool {
    matches!(action, CreateAction::Send(_) | CreateAction::Register(_) | CreateAction::Report(_))
}

#[test]
fn status_codes() {
    assert_eq!(STATUS_OK, 200);
    assert_eq!(STATUS_UNAUTHORIZED, 401);
    assert_eq!(STATUS_INTERNAL_SERVER_ERROR, 500);
    assert_eq!(ApiError::AuthenticationError.status(), 401);
    assert_eq!(ApiError::UpstreamCommunicationError("x".to_string()).status(), 500);
    assert_eq!(ApiError::UpstreamApplicationError("x".to_string()).status(), 500);
    assert_eq!(ApiError::PersistenceError("x".to_string()).status(), 500);
}

#[test]
fn answers_carry_their_status() {
    assert_eq!(success(), CreateAction::Respond(Response { status: 200, result: Ok(()) }));
    assert_eq!(
        failure(ApiError::AuthenticationError),
        respond(401, ApiError::AuthenticationError)
    );
    assert_eq!(
        failure(ApiError::PersistenceError("disk".to_string())),
        respond(500, ApiError::PersistenceError("disk".to_string()))
    );
}

#[test]
fn a_flow_begins_by_authenticating() {
    assert_eq!(
        begin_create(request(), config()),
        CreateState::Authenticating { request: request(), config: config() }
    );
}

#[test]
fn missing_session_is_turned_away_before_anything_else() {
    let (state, action) = create_experience(
        begin_create(request(), config()),
        CreateEvent::Unauthenticated,
    );
    assert_eq!(state, CreateState::Finished);
    assert_eq!(action, respond(401, ApiError::AuthenticationError));
}

#[test]
fn missing_session_never_reaches_upstream_or_store() {
    let actions = run(vec![
        CreateEvent::Unauthenticated,
        CreateEvent::Authenticated,
        CreateEvent::Replied(UpstreamReply::Created("abc123".to_string())),
        CreateEvent::Registered,
        CreateEvent::RegisterFailed("late".to_string()),
        CreateEvent::Reported,
    ]);
    assert_eq!(actions.len(), 6);
    assert_eq!(actions[0], respond(401, ApiError::AuthenticationError));
    for action in &actions {
        assert!(!touches_upstream_or_store(action));
    }
    for action in &actions[1..] {
        assert_eq!(*action, CreateAction::Ignore);
    }
}

#[test]
fn valid_session_sends_the_request_upstream() {
    let (state, action) = create_experience(
        begin_create(request(), config()),
        CreateEvent::Authenticated,
    );
    assert_eq!(state, CreateState::Sending { request: request() });
    assert_eq!(
        action,
        CreateAction::Send(UpstreamCall {
            base_url: "https://experiences.example".to_string(),
            cookie: "pwd=hunter2".to_string(),
            request: request(),
        })
    );
}

#[test]
fn transport_error_never_writes_to_storage() {
    let actions = run(vec![
        CreateEvent::Authenticated,
        CreateEvent::SendFailed("connection refused".to_string()),
        CreateEvent::Registered,
        CreateEvent::Replied(UpstreamReply::Created("abc123".to_string())),
    ]);
    assert_eq!(actions.len(), 4);
    assert!(matches!(actions[0], CreateAction::Send(_)));
    assert_eq!(
        actions[1],
        respond(
            500,
            ApiError::UpstreamCommunicationError(
                "Unable to send request to experiences server: connection refused".to_string()
            )
        )
    );
    assert_eq!(actions[2], CreateAction::Ignore);
    assert_eq!(actions[3], CreateAction::Ignore);
    for action in &actions {
        assert!(!matches!(action, CreateAction::Register(_) | CreateAction::Report(_)));
    }
}

#[test]
fn body_that_cannot_be_received_is_a_communication_error() {
    let actions = run(vec![
        CreateEvent::Authenticated,
        CreateEvent::BodyUnreadable("stream closed".to_string()),
    ]);
    assert_eq!(
        actions[1],
        respond(
            500,
            ApiError::UpstreamCommunicationError(
                "Unable to read response from experiences server: stream closed".to_string()
            )
        )
    );
}

#[test]
fn body_that_cannot_be_parsed_is_a_communication_error() {
    let actions = run(vec![
        CreateEvent::Authenticated,
        CreateEvent::Replied(UpstreamReply::Unreadable("expected value".to_string())),
    ]);
    assert_eq!(
        actions[1],
        respond(
            500,
            ApiError::UpstreamCommunicationError(
                "Unable to read response from experiences server: expected value".to_string()
            )
        )
    );
}

#[test]
fn upstream_refusal_is_an_application_error() {
    let actions = run(vec![
        CreateEvent::Authenticated,
        CreateEvent::Replied(UpstreamReply::Rejected("name taken".to_string())),
        CreateEvent::Registered,
    ]);
    assert_eq!(
        actions[1],
        respond(
            500,
            ApiError::UpstreamApplicationError(
                "Unable to create experience on experiences server: The experiences server reported an error: name taken"
                    .to_string()
            )
        )
    );
    assert_eq!(actions[2], CreateAction::Ignore);
}

#[test]
fn created_experience_is_registered_under_the_upstream_id() {
    let actions = run(vec![
        CreateEvent::Authenticated,
        CreateEvent::Replied(UpstreamReply::Created("abc123".to_string())),
        CreateEvent::Registered,
    ]);
    assert_eq!(
        actions[1],
        CreateAction::Register(Event {
            timing: Timing::Instant(Instant::new(1_700_000_000, 0).unwrap()),
            id: "abc123".to_string(),
            plugin: PluginKind::Experience,
            event: DatabaseExperience { name: "Summit".to_string(), id: "abc123".to_string() },
        })
    );
    assert_eq!(actions[2], CreateAction::Respond(Response { status: 200, result: Ok(()) }));
}

#[test]
fn storage_failure_is_reported_once_and_returned() {
    let actions = run(vec![
        CreateEvent::Authenticated,
        CreateEvent::Replied(UpstreamReply::Created("abc123".to_string())),
        CreateEvent::RegisterFailed("write concern failed".to_string()),
        CreateEvent::Reported,
        CreateEvent::Reported,
        CreateEvent::RegisterFailed("again".to_string()),
    ]);
    assert_eq!(actions.len(), 6);
    assert!(matches!(&actions[1], CreateAction::Register(event) if event.id == "abc123"));
    assert_eq!(
        actions[2],
        CreateAction::Report(ErrorReport {
            plugin: PluginKind::Experience,
            error: "write concern failed".to_string(),
        })
    );
    assert_eq!(
        actions[3],
        respond(500, ApiError::PersistenceError("write concern failed".to_string()))
    );
    assert_eq!(actions[4], CreateAction::Ignore);
    assert_eq!(actions[5], CreateAction::Ignore);
    let reports = actions.iter().filter(|a| matches!(a, CreateAction::Report(_))).count();
    assert_eq!(reports, 1);
}

#[test]
fn the_answer_to_a_storage_failure_waits_for_the_report() {
    let state = CreateState::Registering;
    let (state, action) =
        create_experience(state, CreateEvent::RegisterFailed("full".to_string()));
    assert_eq!(state, CreateState::Reporting { error: "full".to_string() });
    assert!(matches!(action, CreateAction::Report(_)));
    let (state, action) = create_experience(state, CreateEvent::Registered);
    assert_eq!(state, CreateState::Reporting { error: "full".to_string() });
    assert_eq!(action, CreateAction::Ignore);
}

#[test]
fn events_out_of_turn_are_ignored() {
    let start = begin_create(request(), config());
    let (state, action) = create_experience(start, CreateEvent::Registered);
    assert_eq!(state, begin_create(request(), config()));
    assert_eq!(action, CreateAction::Ignore);
    let (state, action) =
        create_experience(CreateState::Sending { request: request() }, CreateEvent::Authenticated);
    assert_eq!(state, CreateState::Sending { request: request() });
    assert_eq!(action, CreateAction::Ignore);
    let (state, action) = create_experience(CreateState::Registering, CreateEvent::Reported);
    assert_eq!(state, CreateState::Registering);
    assert_eq!(action, CreateAction::Ignore);
    let (state, action) = create_experience(CreateState::Finished, CreateEvent::Authenticated);
    assert_eq!(state, CreateState::Finished);
    assert_eq!(action, CreateAction::Ignore);
}

#[test]
fn a_range_timing_is_stored_as_it_was_asked() {
    let timing = Timing::Range(TimeRange {
        start: Instant::new(10, 0).unwrap(),
        end: Instant::new(20, 0).unwrap(),
    });
    let state = CreateState::Sending {
        request: CreateExperienceRequest { name: "Trip".to_string(), time: timing },
    };
    let (_, action) =
        create_experience(state, CreateEvent::Replied(UpstreamReply::Created("id9".to_string())));
    assert_eq!(
        action,
        CreateAction::Register(Event {
            timing,
            id: "id9".to_string(),
            plugin: PluginKind::Experience,
            event: DatabaseExperience { name: "Trip".to_string(), id: "id9".to_string() },
        })
    );
}

#[test]
fn cookie_carries_the_password() {
    assert_eq!(cookie_for("hunter2"), "pwd=hunter2");
    assert_eq!(cookie_for(""), "pwd=");
}

#[test]
fn endpoint_is_the_create_path_on_the_upstream_server() {
    let call = UpstreamCall {
        base_url: "https://experiences.example/some/page?x=1".to_string(),
        cookie: cookie_for("pw"),
        request: request(),
    };
    assert_eq!(call.endpoint().unwrap(), "https://experiences.example/api/experience/create");
    let local = UpstreamCall {
        base_url: "http://localhost:8000".to_string(),
        cookie: cookie_for("pw"),
        request: request(),
    };
    assert_eq!(local.endpoint().unwrap(), "http://localhost:8000/api/experience/create");
}

#[test]
fn endpoint_fails_for_an_address_that_cannot_be_a_base() {
    let call = UpstreamCall {
        base_url: "mailto:someone@example.com".to_string(),
        cookie: cookie_for("pw"),
        request: request(),
    };
    assert!(call.endpoint().is_err());
    let broken = UpstreamCall {
        base_url: "no address".to_string(),
        cookie: cookie_for("pw"),
        request: request(),
    };
    assert!(broken.endpoint().is_err());
}

#[test]
fn reply_with_an_id_is_created() {
    assert_eq!(decode_reply("{\"Ok\":\"abc123\"}"), UpstreamReply::Created("abc123".to_string()));
    assert_eq!(
        decode_reply("  { \"Ok\" : \"with \\\"quotes\\\"\" } "),
        UpstreamReply::Created("with \"quotes\"".to_string())
    );
}

#[test]
fn reply_with_an_error_is_rejected() {
    assert_eq!(
        decode_reply("{\"Err\":\"name taken\"}"),
        UpstreamReply::Rejected("name taken".to_string())
    );
}

#[test]
fn reply_that_is_no_envelope_is_unreadable() {
    assert_eq!(
        decode_reply("<html>502</html>"),
        UpstreamReply::Unreadable("expected value at line 1 column 1".to_string())
    );
    assert!(matches!(decode_reply(""), UpstreamReply::Unreadable(_)));
    assert!(matches!(decode_reply("\"abc123\""), UpstreamReply::Unreadable(_)));
    assert!(matches!(decode_reply("{\"Ok\":5}"), UpstreamReply::Unreadable(_)));
    assert!(matches!(decode_reply("{\"Ok\":\"a\"} trailing"), UpstreamReply::Unreadable(_)));
    assert_eq!(
        decode_reply("{\"Ok\":"),
        UpstreamReply::Unreadable("EOF while parsing a value at line 1 column 6".to_string())
    );
}

#[test]
fn plugin_does_not_start_without_a_configuration() {
    assert_eq!(Plugin::try_new(None), Err(ConfigError::Missing));
    assert_eq!(
        ConfigError::Missing.message(),
        "Failed to init experiences plugin! No config was provided!"
    );
}

#[test]
fn plugin_does_not_start_with_an_address_that_does_not_parse() {
    let bad = ConfigData { password: "pw".to_string(), url: "not an address".to_string() };
    assert_eq!(
        Plugin::try_new(Some(bad)),
        Err(ConfigError::Unfit("relative URL without a base".to_string()))
    );
    assert_eq!(
        ConfigError::Unfit("relative URL without a base".to_string()).message(),
        "Unable to init experiences plugin! Provided config does not fit the requirements: relative URL without a base"
    );
    let empty = ConfigData { password: "pw".to_string(), url: String::new() };
    assert!(matches!(Plugin::try_new(Some(empty)), Err(ConfigError::Unfit(_))));
}

#[test]
fn plugin_starts_with_a_configuration_that_fits() {
    let plugin = Plugin::try_new(Some(config())).unwrap();
    assert_eq!(plugin, Plugin::new(config()));
    assert_eq!(plugin.clone(), plugin);
}

#[test]
fn plugin_keeps_its_configuration() {
    let plugin = Plugin::new(config());
    assert_eq!(plugin.url(), "https://experiences.example");
    assert_eq!(plugin.password(), "hunter2");
    assert_eq!(Plugin::get_type(), PluginKind::Experience);
    assert_eq!(Plugin::get_type().name(), "timeline_plugin_experience");
    assert_eq!(plugin.begin_create(request()), begin_create(request(), config()));
}

#[test]
fn kind_is_known_by_its_name_only() {
    assert_eq!(PluginKind::from_name("timeline_plugin_experience"), Some(PluginKind::Experience));
    assert_eq!(PluginKind::from_name("timeline_plugin_media"), None);
    assert_eq!(PluginKind::from_name("timeline_plugin_experience "), None);
    assert_eq!(PluginKind::from_name(""), None);
    assert_eq!(PluginKind::from_name(&PluginKind::Experience.name()), Some(PluginKind::Experience));
}

#[test]
fn a_decoded_body_stands_for_its_reply() {
    assert_eq!(reply_of(Ok(Ok("abc123".to_string()))), UpstreamReply::Created("abc123".to_string()));
    assert_eq!(reply_of(Ok(Err("no".to_string()))), UpstreamReply::Rejected("no".to_string()));
    assert_eq!(reply_of(Err("bad".to_string())), UpstreamReply::Unreadable("bad".to_string()));
}
