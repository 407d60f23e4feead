use tick_tracker::config::Config;
use tick_tracker::coordinator::TrackerApp;
use tick_tracker::delivery::{
    assemble_payload, authorization_header, build_payload, classify_response, plan_delivery,
    DeliveryError, DeliveryOutcome, AUTHORIZATION_HEADER, BEARER_PREFIX,
};
use tick_tracker::session::{DeviceIdentity, Session};
use tick_tracker::time::Timestamp;

fn identity() -> DeviceIdentity {
    DeviceIdentity {
        device_id: "desk-ada".to_string(),
        platform: "windows".to_string(),
        time_zone: "Europe/Vienna".to_string(),
    }
}

fn session(start: Timestamp, end: Timestamp) -> Session {
    Session::seal("Chrome".to_string(), start, end, &identity()).expect("no session")
}

#[test]
fn payload_carries_the_session_with_rfc3339_times() {
    let s = session(Timestamp::new(1_704_067_200, 0), Timestamp::new(1_704_067_205, 0));
    let payload = build_payload(&s).expect("no payload");
    assert_eq!(payload.device_id, "desk-ada");
    assert_eq!(payload.device_platform, "windows");
    assert_eq!(payload.app_name, "Chrome");
    assert_eq!(payload.start_time, "2024-01-01T00:00:00+00:00");
    assert_eq!(payload.end_time, "2024-01-01T00:00:05+00:00");
    assert_eq!(payload.time_zone, "Europe/Vienna");
}

#[test]
fn payload_times_differ_from_the_raw_seconds() {
    let s = session(Timestamp::new(86_400, 500_000), Timestamp::new(86_401, 0));
    let payload = build_payload(&s).expect("no payload");
    assert_eq!(payload.start_time, "1970-01-02T00:00:00.000500+00:00");
    assert_eq!(payload.end_time, "1970-01-02T00:00:01+00:00");
}

#[test]
fn payload_is_refused_for_a_time_outside_the_calendar() {
    let late = session(Timestamp::new(0, 0), Timestamp::new(i64::MAX, 0));
    assert_eq!(build_payload(&late).err(), Some(DeliveryError::TimeOutOfRange));
    let early = session(Timestamp::new(i64::MIN, 0), Timestamp::new(0, 0));
    assert_eq!(build_payload(&early).err(), Some(DeliveryError::TimeOutOfRange));
    let config = Config::default();
    assert_eq!(plan_delivery(&config, &late).err(), Some(DeliveryError::TimeOutOfRange));
}

#[test]
fn assembled_payload_takes_the_given_texts() {
    let s = session(Timestamp::new(0, 0), Timestamp::new(1, 0));
    let payload = assemble_payload(&s, "from".to_string(), "to".to_string());
    assert_eq!(payload.start_time, "from");
    assert_eq!(payload.end_time, "to");
    assert_eq!(payload.app_name, "Chrome");
    assert_eq!(payload.device_id, "desk-ada");
    assert_eq!(payload.device_platform, "windows");
    assert_eq!(payload.time_zone, "Europe/Vienna");
}

#[test]
fn authorization_header_is_bearer_and_key() {
    assert_eq!(authorization_header(&None), None);
    assert_eq!(
        authorization_header(&Some("s3cret".to_string())),
        Some("Bearer s3cret".to_string())
    );
    assert_eq!(authorization_header(&Some(String::new())), Some("Bearer ".to_string()));
}

#[test]
fn request_goes_to_the_configured_endpoint() {
    let config = Config {
        server_url: "https://collector.example/api/log-session".to_string(),
        api_key: Some("k-1".to_string()),
    };
    let s = session(Timestamp::new(1_704_067_200, 0), Timestamp::new(1_704_067_202, 0));
    let request = plan_delivery(&config, &s).expect("no request");
    assert_eq!(request.url, "https://collector.example/api/log-session");
    assert_eq!(request.authorization, Some("Bearer k-1".to_string()));
    assert_eq!(request.payload.app_name, "Chrome");
    assert_eq!(request.payload.end_time, "2024-01-01T00:00:02+00:00");
}

#[test]
fn request_without_key_has_no_header() {
    let s = session(Timestamp::new(1_704_067_200, 0), Timestamp::new(1_704_067_202, 0));
    let request = plan_delivery(&Config::default(), &s).expect("no request");
    assert_eq!(request.url, "http://localhost:3000/api/log-session");
    assert_eq!(request.authorization, None);
}

#[test]
fn application_plans_delivery_with_its_own_configuration() {
    let config = Config { server_url: "http://c/x".to_string(), api_key: Some("k".to_string()) };
    let app = TrackerApp::new(config, identity());
    let s = session(Timestamp::new(10, 0), Timestamp::new(20, 0));
    let request = app.delivery_for(&s).expect("no request");
    assert_eq!(request.url, "http://c/x");
    assert_eq!(request.authorization, Some("Bearer k".to_string()));
    assert_eq!(request.payload.start_time, "1970-01-01T00:00:10+00:00");
}

#[test]
fn answers_from_200_to_299_are_accepted() {
    assert_eq!(classify_response(Some(200)), DeliveryOutcome::Accepted);
    assert_eq!(classify_response(Some(201)), DeliveryOutcome::Accepted);
    assert_eq!(classify_response(Some(299)), DeliveryOutcome::Accepted);
}

#[test]
fn other_answers_are_rejected() {
    assert_eq!(classify_response(Some(199)), DeliveryOutcome::Rejected { status: 199 });
    assert_eq!(classify_response(Some(300)), DeliveryOutcome::Rejected { status: 300 });
    assert_eq!(classify_response(Some(404)), DeliveryOutcome::Rejected { status: 404 });
    assert_eq!(classify_response(Some(500)), DeliveryOutcome::Rejected { status: 500 });
}

#[test]
fn no_answer_is_a_network_error() {
    assert_eq!(classify_response(None), DeliveryOutcome::NetworkError);
}

#[test]
fn wire_fields_are_named_in_camel_case() {
    let s = session(Timestamp::new(1_704_067_200, 0), Timestamp::new(1_704_067_205, 0));
    let fields = build_payload(&s).expect("no payload").wire_fields();
    let expected = vec![
        ("deviceId", "desk-ada".to_string()),
        ("devicePlatform", "windows".to_string()),
        ("appName", "Chrome".to_string()),
        ("startTime", "2024-01-01T00:00:00+00:00".to_string()),
        ("endTime", "2024-01-01T00:00:05+00:00".to_string()),
        ("timeZone", "Europe/Vienna".to_string()),
    ];
    assert_eq!(fields, expected);
}

#[test]
fn header_constants() {
    assert_eq!(AUTHORIZATION_HEADER, "Authorization");
    assert_eq!(BEARER_PREFIX, "Bearer ");
}
