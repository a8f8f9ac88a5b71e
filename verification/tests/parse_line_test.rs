use pomodorolm::pomodoro::{parse_line, ParseError, SessionType};

#[test]
fn parsing_error() {
    let result = parse_line("invalid line".to_owned());
    let error = result.unwrap_err();
    assert_eq!(
        error.to_string(),
        "Unable to read session line, it should have only 2 parts between a ;"
    );

    let result = parse_line("focus-;label".to_owned());
    let error = result.unwrap_err();
    assert_eq!(
        error.to_string(),
        "Unable to read session line, unknown session type: focus-"
    );
}

#[test]
fn parsing_ok_in_minutes() {
    let result = parse_line("Focus;label".to_owned()).unwrap();
    assert_eq!(result.label, "label");
    assert_eq!(result.session_type, SessionType::Focus);

    let result = parse_line("ShortBreak;label".to_owned()).unwrap();
    assert_eq!(result.label, "label");
    assert_eq!(result.session_type, SessionType::ShortBreak);

    let result = parse_line("LongBreak;label".to_owned()).unwrap();
    assert_eq!(result.label, "label");
    assert_eq!(result.session_type, SessionType::LongBreak);
}

#[test]
fn parsing_distinguishes_its_two_errors() {
    let malformed = parse_line("invalid".to_owned()).unwrap_err();
    let unknown = parse_line("bogus;label".to_owned()).unwrap_err();
    assert_eq!(malformed, ParseError::MalformedLine);
    assert_eq!(unknown, ParseError::UnknownSessionType("bogus".to_owned()));
    assert_ne!(malformed.to_string(), unknown.to_string());
}
