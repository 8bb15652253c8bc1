use toastify::{parse_command, parse_u32, ArgError, Command, HintError, HintKind, UrgencyShim};

fn tokens(words: &[&str]) -> Vec<String> {
    words.iter().map(|w| w.to_string()).collect()
}

fn parse_send(words: &[&str]) -> Result<toastify::NotificationRequest, ArgError> {
    match parse_command(&tokens(words), true) {
        Ok(Command::Send(req)) => Ok(req),
        Ok(_) => panic!("expected a send command"),
        Err(e) => Err(e),
    }
}

#[test]
fn bare_send_title_is_minimal() {
    let req = parse_send(&["send", "Hello"]).unwrap();
    assert_eq!(req.title, "Hello");
    assert!(req.body.is_none());
    assert!(req.app_name.is_none());
    assert!(req.extra.id.is_none());
    assert!(req.extra.icon.is_none());
    assert!(req.extra.expire_ms.is_none());
    assert!(req.extra.urgency.is_none());
    assert!(req.extra.categories.is_empty());
    assert!(req.extra.hint.is_none());
    assert!(!req.extra.debug);
}

#[test]
fn title_and_body_fill_in_order() {
    let req = parse_send(&["send", "Hello", "World"]).unwrap();
    assert_eq!(req.title, "Hello");
    assert_eq!(req.body.as_deref(), Some("World"));
}

#[test]
fn critical_urgency_is_parsed() {
    let req = parse_send(&["send", "Hello", "World", "--urgency", "critical"]).unwrap();
    assert!(matches!(req.extra.urgency, Some(UrgencyShim::Critical)));
}

#[test]
fn short_urgency_flag_works() {
    let req = parse_send(&["send", "Hello", "-u", "low"]).unwrap();
    assert!(matches!(req.extra.urgency, Some(UrgencyShim::Low)));
}

#[test]
fn invalid_urgency_is_rejected() {
    assert_eq!(parse_send(&["send", "Hello", "-u", "urgent"]), Err(ArgError::InvalidUrgency));
}

#[test]
fn id_within_u32_range_is_accepted() {
    let req = parse_send(&["send", "Hello", "World", "4294967295"]).unwrap();
    assert_eq!(req.extra.id, Some(u32::MAX));
}

#[test]
fn id_past_u32_range_is_rejected_at_parse_time() {
    assert_eq!(
        parse_send(&["send", "Hello", "World", "4294967296"]),
        Err(ArgError::InvalidId)
    );
}

#[test]
fn non_numeric_id_is_rejected() {
    assert_eq!(parse_send(&["send", "Hello", "World", "seven"]), Err(ArgError::InvalidId));
}

#[test]
fn parse_u32_covers_the_full_range() {
    assert_eq!(parse_u32("0"), Some(0));
    assert_eq!(parse_u32("4294967295"), Some(u32::MAX));
    assert_eq!(parse_u32("4294967296"), None);
    assert_eq!(parse_u32("99999999999999999999"), None);
    assert_eq!(parse_u32(""), None);
    assert_eq!(parse_u32("12a"), None);
    assert_eq!(parse_u32("-1"), None);
}

#[test]
fn app_name_flag_is_taken() {
    let req = parse_send(&["send", "Hello", "--app-name", "mailer"]).unwrap();
    assert_eq!(req.app_name.as_deref(), Some("mailer"));
    let req = parse_send(&["send", "Hello", "-a", "mailer"]).unwrap();
    assert_eq!(req.app_name.as_deref(), Some("mailer"));
}

#[test]
fn icon_flag_is_taken() {
    let req = parse_send(&["send", "Hello", "-i", "/tmp/icon.png"]).unwrap();
    assert_eq!(req.extra.icon.as_deref(), Some("/tmp/icon.png"));
}

#[test]
fn expire_time_must_be_positive() {
    let req = parse_send(&["send", "Hello", "--expire-time", "1500"]).unwrap();
    assert_eq!(req.extra.expire_ms, Some(1500));
    assert_eq!(
        parse_send(&["send", "Hello", "--expire-time", "0"]),
        Err(ArgError::InvalidExpireTime)
    );
    assert_eq!(
        parse_send(&["send", "Hello", "-t", "-5"]),
        Err(ArgError::InvalidExpireTime)
    );
}

#[test]
fn categories_accumulate_in_order() {
    let req = parse_send(&["send", "Hello", "-c", "email", "--categories", "urgent"]).unwrap();
    assert_eq!(req.extra.categories, vec!["email".to_string(), "urgent".to_string()]);
}

#[test]
fn hint_flag_is_parsed() {
    let req = parse_send(&["send", "Hello", "--hint", "int:volume:11"]).unwrap();
    let hint = req.extra.hint.unwrap();
    assert!(matches!(hint.kind, HintKind::Int));
    assert_eq!(hint.name, "volume");
    assert_eq!(hint.value, "11");
}

#[test]
fn malformed_hint_is_rejected() {
    assert_eq!(
        parse_send(&["send", "Hello", "--hint", "int:volume"]),
        Err(ArgError::InvalidHint(HintError::WrongSegmentCount))
    );
    assert_eq!(
        parse_send(&["send", "Hello", "--hint", "bits:volume:11"]),
        Err(ArgError::InvalidHint(HintError::UnknownValueType))
    );
}

#[test]
fn debug_flag_needs_no_value() {
    let req = parse_send(&["send", "Hello", "--debug"]).unwrap();
    assert!(req.extra.debug);
    let req = parse_send(&["send", "-d", "Hello"]).unwrap();
    assert!(req.extra.debug);
}

#[test]
fn missing_title_is_rejected() {
    assert_eq!(parse_send(&["send"]), Err(ArgError::MissingTitle));
}

#[test]
fn empty_title_is_rejected() {
    assert_eq!(parse_send(&["send", ""]), Err(ArgError::EmptyTitle));
}

#[test]
fn fourth_positional_is_rejected() {
    assert_eq!(
        parse_send(&["send", "a", "b", "7", "d"]),
        Err(ArgError::UnexpectedArgument)
    );
}

#[test]
fn unknown_flag_is_rejected() {
    assert_eq!(parse_send(&["send", "Hello", "--loud"]), Err(ArgError::UnknownFlag));
}

#[test]
fn flag_without_value_is_rejected() {
    assert_eq!(parse_send(&["send", "Hello", "--app-name"]), Err(ArgError::MissingFlagValue));
}

#[test]
fn repeated_flag_is_rejected() {
    assert_eq!(
        parse_send(&["send", "Hello", "-a", "x", "--app-name", "y"]),
        Err(ArgError::RepeatedFlag)
    );
}

#[test]
fn no_subcommand_is_rejected() {
    assert_eq!(parse_command(&tokens(&[]), true), Err(ArgError::MissingSubcommand));
}

#[test]
fn unknown_subcommand_is_rejected() {
    assert_eq!(parse_command(&tokens(&["toast"]), true), Err(ArgError::UnknownSubcommand));
}

#[test]
fn diagnostics_depend_on_the_platform() {
    assert!(matches!(parse_command(&tokens(&["server"]), true), Ok(Command::Server)));
    assert!(matches!(parse_command(&tokens(&["info"]), true), Ok(Command::Info)));
    assert_eq!(parse_command(&tokens(&["server"]), false), Err(ArgError::UnsupportedSubcommand));
    assert_eq!(parse_command(&tokens(&["info"]), false), Err(ArgError::UnsupportedSubcommand));
}

#[test]
fn diagnostics_take_no_arguments() {
    assert_eq!(
        parse_command(&tokens(&["info", "extra"]), true),
        Err(ArgError::UnexpectedArgument)
    );
}
