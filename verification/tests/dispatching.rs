use toastify::{
    info_report, parse_command, plan_send, render, Command, NotificationRequest, ServerAction,
    ServerEvent, ServerInfo, ServerPhase, UrgencyShim, DEFAULT_APP_NAME,
};

fn tokens(words: &[&str]) -> Vec<String> {
    words.iter().map(|w| w.to_string()).collect()
}

fn send_request(words: &[&str]) -> NotificationRequest {
    match parse_command(&tokens(words), true) {
        Ok(Command::Send(req)) => req,
        other => panic!("expected a send command, got {:?}", other),
    }
}

// A stand-in for the transport: accepts every payload.
fn stub_show_ok(_payload: &toastify::NotificationPayload) -> Result<u32, String> {
    Ok(1)
}

#[test]
fn bare_send_succeeds_against_a_stubbed_transport() {
    let req = send_request(&["send", "Hello"]);
    assert_eq!(req.title, "Hello");
    assert!(req.body.is_none());
    assert!(req.app_name.is_none());
    let plan = plan_send(req);
    assert_eq!(plan.payload.summary, "Hello");
    assert!(plan.payload.body.is_none());
    assert_eq!(plan.payload.app_name, DEFAULT_APP_NAME);
    assert!(!plan.echo_debug);
    assert!(stub_show_ok(&plan.payload).is_ok());
}

#[test]
fn urgency_critical_reaches_the_payload() {
    let req = send_request(&["send", "Hello", "World", "--urgency", "critical"]);
    let plan = plan_send(req);
    assert!(matches!(plan.payload.urgency, Some(UrgencyShim::Critical)));
    assert_eq!(plan.payload.body.as_deref(), Some("World"));
}

#[test]
fn named_app_overrides_the_default() {
    let req = send_request(&["send", "Hello", "-a", "mailer"]);
    let plan = plan_send(req);
    assert_eq!(plan.payload.app_name, "mailer");
}

#[test]
fn debug_flag_sets_the_echo() {
    let req = send_request(&["send", "Hello", "--debug"]);
    let plan = plan_send(req);
    assert!(plan.echo_debug);
}

#[test]
fn render_prints_one_line_per_present_field() {
    let req = send_request(&[
        "send", "Hello", "World", "7", "-u", "critical", "-t", "1500", "-c", "email", "-c",
        "mail", "--hint", "int:volume:11", "-i", "bell",
    ]);
    let plan = plan_send(req);
    let text = render(&plan.payload);
    assert_eq!(
        text,
        "title: Hello\nbody: World\napp name: toastify\nid: 7\nicon: bell\n\
         expire time: 1500\nurgency: critical\nhint: int:volume:11\ncategories: email mail\n"
    );
}

#[test]
fn render_omits_absent_fields() {
    let req = send_request(&["send", "Hi"]);
    let plan = plan_send(req);
    assert_eq!(render(&plan.payload), "title: Hi\napp name: toastify\n");
}

fn sample_info() -> ServerInfo {
    ServerInfo {
        name: "gnome-shell".to_string(),
        vendor: "GNOME".to_string(),
        version: "46".to_string(),
        spec_version: "1.2".to_string(),
    }
}

#[test]
fn info_with_failed_capability_lookup_still_reports_the_server() {
    let caps: Result<Vec<String>, String> = Err("capability lookup failed".to_string());
    let report = info_report(&Ok(sample_info()), &caps);
    assert!(report.server_ok);
    assert_eq!(report.server_line, "server information: gnome-shell GNOME 46 1.2");
    assert!(!report.caps_ok);
    assert_eq!(report.caps_line, "capability lookup failed");
    assert!(!report.success);
}

#[test]
fn info_with_both_queries_succeeding_succeeds() {
    let caps: Result<Vec<String>, String> =
        Ok(vec!["actions".to_string(), "body".to_string()]);
    let report = info_report(&Ok(sample_info()), &caps);
    assert!(report.success);
    assert_eq!(report.caps_line, "capabilities: actions body");
}

#[test]
fn info_with_both_queries_failing_fails() {
    let report = info_report(
        &Err("no daemon".to_string()),
        &Err("no daemon".to_string()),
    );
    assert!(!report.server_ok && !report.caps_ok && !report.success);
    assert_eq!(report.server_line, "no daemon");
}

#[test]
fn server_session_stops_on_operator_input() {
    let mut phase = ServerPhase::Listening;
    assert!(matches!(phase.next_action(), ServerAction::SendSelfTest));
    phase = phase.step(ServerEvent::SelfTestSent);
    assert!(matches!(phase, ServerPhase::AwaitingInput));
    assert!(matches!(phase.next_action(), ServerAction::WaitForInput));
    phase = phase.step(ServerEvent::OperatorInput);
    assert!(matches!(phase, ServerPhase::Terminated));
    assert!(matches!(phase.next_action(), ServerAction::Finish));
}

#[test]
fn terminated_sessions_stay_terminated() {
    let phase = ServerPhase::Terminated;
    assert!(matches!(phase.step(ServerEvent::SelfTestSent), ServerPhase::Terminated));
    assert!(matches!(phase.step(ServerEvent::OperatorInput), ServerPhase::Terminated));
}

#[test]
fn early_operator_input_does_not_skip_the_self_test() {
    let phase = ServerPhase::Listening;
    assert!(matches!(phase.step(ServerEvent::OperatorInput), ServerPhase::Listening));
}

#[test]
fn number_text_round_trips() {
    assert_eq!(toastify::u32_to_string(0), "0");
    assert_eq!(toastify::u32_to_string(407), "407");
    assert_eq!(toastify::u32_to_string(u32::MAX), "4294967295");
    assert_eq!(toastify::parse_u32(&toastify::u32_to_string(123456789)), Some(123456789));
}
