use chrome_devtools::runtime::Event as Payload;
use wrangler::event::{classify, classify_decoded, ClassifyError, DebugEvent, Decoded, Kind};

const HELLO: &str = "{\"method\":\"Runtime.consoleAPICalled\",\"params\":{\"type\":\"log\",\"args\":[{\"type\":\"string\",\"value\":\"hello\"}]}}";

const BOOM: &str = "{\"method\":\"Runtime.exceptionThrown\",\"params\":{\"exceptionDetails\":{\"text\":\"Uncaught\",\"exception\":{\"description\":\"Error: boom\"}}}}";

fn console_call(category: &str, word: &str) -> String {
    format!(
        "{{\"method\":\"Runtime.consoleAPICalled\",\"params\":{{\"type\":\"{}\",\"args\":[{{\"type\":\"string\",\"value\":\"{}\"}}]}}}}",
        category, word
    )
}

fn payload_of(raw: &str) -> Payload {
    serde_json::from_str(raw).unwrap()
}

#[test]
fn console_call_is_classified_with_its_category() {
    match classify(HELLO) {
        Ok(DebugEvent::ConsoleCall { log_type, payload }) => {
            assert_eq!(log_type, "log");
            assert_eq!(payload.to_string(), "hello");
        }
        other => panic!("unexpected classification: {:?}", other),
    }
}

#[test]
fn category_is_taken_from_the_frame() {
    for category in ["log", "error", "warning", "debug", "", "LOG"] {
        match classify(&console_call(category, "x")) {
            Ok(DebugEvent::ConsoleCall { log_type, .. }) => assert_eq!(log_type, category),
            other => panic!("unexpected classification: {:?}", other),
        }
    }
}

#[test]
fn member_order_does_not_matter() {
    let raw = "{\"params\":{\"args\":[],\"type\":\"error\"},\"method\":\"Runtime.consoleAPICalled\"}";
    match classify(raw) {
        Ok(DebugEvent::ConsoleCall { log_type, .. }) => assert_eq!(log_type, "error"),
        other => panic!("unexpected classification: {:?}", other),
    }
}

#[test]
fn console_call_without_arguments_is_classified() {
    let raw = "{\"method\":\"Runtime.consoleAPICalled\",\"params\":{\"type\":\"log\",\"args\":[]}}";
    match classify(raw) {
        Ok(DebugEvent::ConsoleCall { log_type, .. }) => assert_eq!(log_type, "log"),
        other => panic!("unexpected classification: {:?}", other),
    }
}

#[test]
fn console_call_written_as_a_list_keeps_its_category() {
    let raw = "[\"Runtime.consoleAPICalled\",{\"type\":\"error\",\"args\":[{\"type\":\"string\",\"value\":\"listed\"}]}]";
    match classify(raw) {
        Ok(DebugEvent::ConsoleCall { log_type, payload }) => {
            assert_eq!(log_type, "error");
            assert_eq!(payload.to_string(), "listed");
        }
        other => panic!("unexpected classification: {:?}", other),
    }
    let params_as_a_list = "{\"method\":\"Runtime.consoleAPICalled\",\"params\":[\"warning\",[]]}";
    match classify(params_as_a_list) {
        Ok(DebugEvent::ConsoleCall { log_type, .. }) => assert_eq!(log_type, "warning"),
        other => panic!("unexpected classification: {:?}", other),
    }
}

#[test]
fn members_that_the_schema_does_not_know_are_passed_over() {
    let raw = "{\"method\":\"Runtime.consoleAPICalled\",\"params\":{\"type\":\"log\",\"args\":[]},\"x\":1e999}";
    match classify(raw) {
        Ok(DebugEvent::ConsoleCall { log_type, .. }) => assert_eq!(log_type, "log"),
        other => panic!("unexpected classification: {:?}", other),
    }
    let shadowed = "{\"type\":\"outer\",\"method\":\"Runtime.consoleAPICalled\",\"params\":{\"type\":\"inner\",\"args\":[],\"extra\":{\"type\":\"deeper\"}}}";
    match classify(shadowed) {
        Ok(DebugEvent::ConsoleCall { log_type, .. }) => assert_eq!(log_type, "inner"),
        other => panic!("unexpected classification: {:?}", other),
    }
}

#[test]
fn exception_is_classified() {
    match classify(BOOM) {
        Ok(DebugEvent::ExceptionThrown { payload }) => {
            assert_eq!(payload.to_string(), "Uncaught\nError: boom");
        }
        other => panic!("unexpected classification: {:?}", other),
    }
}

#[test]
fn text_that_is_no_json_is_malformed() {
    match classify("hello") {
        Err(ClassifyError::Malformed { reason }) => {
            assert_eq!(reason, "expected value at line 1 column 1");
        }
        other => panic!("unexpected classification: {:?}", other),
    }
    assert!(matches!(classify(""), Err(ClassifyError::Malformed { .. })));
    assert!(matches!(classify("{"), Err(ClassifyError::Malformed { .. })));
}

#[test]
fn frame_of_another_shape_is_malformed() {
    let method_return = "{\"id\":1,\"result\":{}}";
    assert!(matches!(classify(method_return), Err(ClassifyError::Malformed { .. })));
    let unknown_event = "{\"method\":\"Runtime.executionContextCreated\",\"params\":{}}";
    match classify(unknown_event) {
        Err(ClassifyError::Malformed { reason }) => {
            assert!(reason.contains("Runtime.executionContextCreated"));
        }
        other => panic!("unexpected classification: {:?}", other),
    }
    let no_category = "{\"method\":\"Runtime.consoleAPICalled\",\"params\":{\"args\":[]}}";
    assert!(matches!(classify(no_category), Err(ClassifyError::Malformed { .. })));
    let category_is_a_number =
        "{\"method\":\"Runtime.consoleAPICalled\",\"params\":{\"type\":7,\"args\":[]}}";
    assert!(matches!(classify(category_is_a_number), Err(ClassifyError::Malformed { .. })));
}

#[test]
fn classification_depends_on_the_text_alone() {
    for raw in [HELLO, BOOM, "hello", "{\"id\":1}"] {
        let first = format!("{:?}", classify(raw));
        let second = format!("{:?}", classify(raw));
        assert_eq!(first, second);
    }
}

#[test]
fn decoded_console_call_takes_the_category_found() {
    let decoded = Ok(Decoded {
        kind: Kind::ConsoleCall,
        category: Some(String::from("table")),
        payload: payload_of(HELLO),
    });
    match classify_decoded(decoded) {
        Ok(DebugEvent::ConsoleCall { log_type, payload }) => {
            assert_eq!(log_type, "table");
            assert_eq!(payload.to_string(), "hello");
        }
        other => panic!("unexpected classification: {:?}", other),
    }
}

#[test]
fn decoded_console_call_without_category_is_still_an_event() {
    let decoded =
        Ok(Decoded { kind: Kind::ConsoleCall, category: None, payload: payload_of(HELLO) });
    match classify_decoded(decoded) {
        Ok(DebugEvent::ConsoleCall { log_type, payload }) => {
            assert_eq!(log_type, "");
            assert_eq!(payload.to_string(), "hello");
        }
        other => panic!("unexpected classification: {:?}", other),
    }
}

#[test]
fn decoded_exception_ignores_the_category() {
    let decoded = Ok(Decoded {
        kind: Kind::ExceptionThrown,
        category: Some(String::from("log")),
        payload: payload_of(BOOM),
    });
    assert!(matches!(classify_decoded(decoded), Ok(DebugEvent::ExceptionThrown { .. })));
    let decoded =
        Ok(Decoded { kind: Kind::ExceptionThrown, category: None, payload: payload_of(BOOM) });
    assert!(matches!(classify_decoded(decoded), Ok(DebugEvent::ExceptionThrown { .. })));
}

#[test]
fn decoded_event_of_another_kind_is_unsupported() {
    let decoded = Ok(Decoded {
        kind: Kind::Other,
        category: Some(String::from("log")),
        payload: payload_of(HELLO),
    });
    assert!(matches!(classify_decoded(decoded), Err(ClassifyError::Unsupported)));
}

#[test]
fn decoding_failure_keeps_its_reason() {
    match classify_decoded(Err(String::from("no good"))) {
        Err(ClassifyError::Malformed { reason }) => assert_eq!(reason, "no good"),
        other => panic!("unexpected classification: {:?}", other),
    }
}
