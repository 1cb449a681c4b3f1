use chrome_devtools::runtime::Event as Payload;
use wrangler::event::DebugEvent;
use wrangler::render::{render, Stream, Tone};

fn payload(word: &str) -> Payload {
    let raw = format!(
        "{{\"method\":\"Runtime.consoleAPICalled\",\"params\":{{\"type\":\"log\",\"args\":[{{\"type\":\"string\",\"value\":\"{}\"}}]}}}}",
        word
    );
    serde_json::from_str(&raw).unwrap()
}

fn console_call(category: &str, word: &str) -> DebugEvent {
    DebugEvent::ConsoleCall { log_type: String::from(category), payload: payload(word) }
}

#[test]
fn log_goes_to_standard_output_in_blue() {
    let line = render(console_call("log", "hello"));
    assert_eq!(line.stream, Stream::Stdout);
    assert_eq!(line.tone, Tone::Informational);
    assert_eq!(line.label, "");
    assert_eq!(line.payload.to_string(), "hello");
}

#[test]
fn error_goes_to_standard_error_in_red() {
    let line = render(console_call("error", "oops"));
    assert_eq!(line.stream, Stream::Stderr);
    assert_eq!(line.tone, Tone::Error);
    assert_eq!(line.label, "");
    assert_eq!(line.payload.to_string(), "oops");
}

#[test]
fn other_category_is_marked_and_goes_to_standard_output() {
    let line = render(console_call("warning", "careful"));
    assert_eq!(line.stream, Stream::Stdout);
    assert_eq!(line.tone, Tone::Plain);
    assert_eq!(line.label, "unknown console event (warning): ");
    assert_eq!(line.payload.to_string(), "careful");
}

#[test]
fn category_is_compared_exactly() {
    for category in ["Log", "ERROR", "log ", "", "logs", "errors"] {
        let line = render(console_call(category, "x"));
        assert_eq!(line.stream, Stream::Stdout);
        assert_eq!(line.tone, Tone::Plain);
        assert_eq!(line.label, format!("unknown console event ({}): ", category));
    }
}

#[test]
fn exception_goes_to_standard_error_emphasised() {
    let raw = "{\"method\":\"Runtime.exceptionThrown\",\"params\":{\"exceptionDetails\":{\"text\":\"Uncaught\",\"exception\":{}}}}";
    let thrown: Payload = serde_json::from_str(raw).unwrap();
    let line = render(DebugEvent::ExceptionThrown { payload: thrown });
    assert_eq!(line.stream, Stream::Stderr);
    assert_eq!(line.tone, Tone::Emphasis);
    assert_eq!(line.label, "");
    assert_eq!(line.payload.to_string(), "Uncaught");
}
