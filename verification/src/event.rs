//! Classification of inbound messages.
//!
//! A raw text frame either decodes as one of the two remote events this client
//! shows, a console call or an uncaught exception, or it does not. Failing to
//! decode is an ordinary outcome: the remote end may send shapes that are not
//! understood yet, and none of them may end the session.

use vstd::prelude::*;
use chrome_devtools::runtime::Event as Payload;

verus! {

/// The remote runtime's event as `chrome_devtools` decodes it. Its contents are
/// not inspected here; it is carried along to whoever prints it.
#[verifier::external_type_specification]
#[verifier::external_body]
pub struct ExRuntimeEvent(chrome_devtools::runtime::Event);

/// The kinds of event the schema knows.
#[derive(Clone, Copy, Debug, PartialEq, Eq, Structural)]
pub enum Kind {
    ConsoleCall,
    ExceptionThrown,
    /// A kind the schema has gained since and this crate does not show.
    Other,
}

/// A frame that decoded: the kind of event it holds, the category the event
/// was found to have, and the decoded value.
#[derive(Debug)]
pub struct Decoded {
    pub kind: Kind,
    pub category: Option<String>,
    pub payload: Payload,
}

/// A decoded frame as contracts speak of it.
pub struct DecodedModel {
    pub kind: Kind,
    pub category: Option<Seq<char>>,
    pub payload: Payload,
}

impl View for Decoded {
    type V = DecodedModel;

    open spec fn view(&self) -> DecodedModel {
        DecodedModel {
            kind: self.kind,
            category: match self.category {
                Some(text) => Some(text@),
                None => None,
            },
            payload: self.payload,
        }
    }
}

/// An inbound message that was recognised.
#[derive(Debug)]
pub enum DebugEvent {
    /// The remote program called its console. `log_type` is the category the
    /// call was made under, as the remote end names it.
    ConsoleCall { log_type: String, payload: Payload },
    /// The remote program threw an exception that nothing caught.
    ExceptionThrown { payload: Payload },
}

/// Why an inbound message was not recognised.
#[derive(Debug)]
pub enum ClassifyError {
    /// The text does not decode against the event schema. `reason` is the
    /// decoder's account of where it gave up.
    Malformed { reason: String },
    /// The text decodes, but not as an event that is shown.
    Unsupported,
}

/// An event as contracts speak of it: its kind, for a console call its
/// category, and the decoded value it carries.
pub enum DebugEventModel {
    ConsoleCall { category: Seq<char>, payload: Payload },
    ExceptionThrown { payload: Payload },
}

pub enum ClassifyErrorModel {
    Malformed { reason: Seq<char> },
    Unsupported,
}

impl View for DebugEvent {
    type V = DebugEventModel;

    open spec fn view(&self) -> DebugEventModel {
        match self {
            DebugEvent::ConsoleCall { log_type, payload } => DebugEventModel::ConsoleCall {
                category: log_type@,
                payload: *payload,
            },
            DebugEvent::ExceptionThrown { payload } => DebugEventModel::ExceptionThrown {
                payload: *payload,
            },
        }
    }
}

impl View for ClassifyError {
    type V = ClassifyErrorModel;

    open spec fn view(&self) -> ClassifyErrorModel {
        match self {
            ClassifyError::Malformed { reason } => ClassifyErrorModel::Malformed { reason: reason@ },
            ClassifyError::Unsupported => ClassifyErrorModel::Unsupported,
        }
    }
}

/// Where the category of a console call stands in an event that is written
/// back as JSON.
pub open spec fn category_path() -> Seq<char> {
    "/params/type"@
}

/// What decoding `raw` against the event schema of `chrome_devtools` yields:
/// the kind of event, the string that the decoded event holds at the JSON
/// pointer `path` when it is written back as JSON, and the decoded value; or
/// the decoder's message.
pub uninterp spec fn decoded(raw: Seq<char>, path: Seq<char>) -> Result<DecodedModel, Seq<char>>;

/// The outcome of decoding.
pub open spec fn decode_outcome(result: Result<Decoded, String>) -> Result<
    DecodedModel,
    Seq<char>,
> {
    match result {
        Ok(found) => Ok(found@),
        Err(reason) => Err(reason@),
    }
}

/// The outcome of a classification.
pub open spec fn outcome(result: Result<DebugEvent, ClassifyError>) -> Result<
    DebugEventModel,
    ClassifyErrorModel,
> {
    match result {
        Ok(event) => Ok(event@),
        Err(error) => Err(error@),
    }
}

/// The category a console call is shown under. A console call that is written
/// back as JSON always holds its category, so the decoder finds one for every
/// console call; were it ever to find none, the call is shown under the empty
/// category, not dropped.
pub open spec fn category_of(found: DecodedModel) -> Seq<char> {
    match found.category {
        Some(category) => category,
        None => Seq::empty(),
    }
}

/// How a frame is classified, given what decoding it yields. Every console
/// call and every exception that decodes is an event; the event carries the
/// decoded value on.
pub open spec fn classification(decoded: Result<DecodedModel, Seq<char>>) -> Result<
    DebugEventModel,
    ClassifyErrorModel,
> {
    match decoded {
        Err(reason) => Err(ClassifyErrorModel::Malformed { reason }),
        Ok(found) => match found.kind {
            Kind::ConsoleCall => Ok(
                DebugEventModel::ConsoleCall {
                    category: category_of(found),
                    payload: found.payload,
                },
            ),
            Kind::ExceptionThrown => Ok(
                DebugEventModel::ExceptionThrown { payload: found.payload },
            ),
            Kind::Other => Err(ClassifyErrorModel::Unsupported),
        },
    }
}

/// How the frame `raw` is classified.
pub open spec fn classified(raw: Seq<char>) -> Result<DebugEventModel, ClassifyErrorModel> {
    classification(decoded(raw, category_path()))
}

/// Decodes `raw` with `serde_json::from_str` as a `chrome_devtools::runtime::Event`,
/// and reads the category off the decoded event: the event is written back
/// with `serde_json::to_value`, and the string at `path` is taken from that
/// with `Value::pointer` and `Value::as_str`.
///
/// The contract claims that the outcome is a function of the two texts: equal
/// texts decode to the same kind, the same category and the same value, or
/// fail with the same message. The message is the decoder's error, formatted.
#[verifier::external_body]
fn decode(raw: &str, path: &str) -> (result: Result<Decoded, String>)
    ensures
        decode_outcome(result) == decoded(raw@, path@),
{
    let payload = match serde_json::from_str::<Payload>(raw) {
        Ok(payload) => payload,
        Err(error) => return Err(error.to_string()),
    };
    let category = match serde_json::to_value(&payload) {
        Ok(written) => written.pointer(path).and_then(serde_json::Value::as_str).map(String::from),
        Err(_) => None,
    };
    match payload {
        Payload::ConsoleAPICalled(_) => Ok(Decoded { kind: Kind::ConsoleCall, category, payload }),
        Payload::ExceptionThrown(_) => Ok(Decoded { kind: Kind::ExceptionThrown, category, payload }),
        _ => Ok(Decoded { kind: Kind::Other, category, payload }),
    }
}

/// Classifies a frame from what decoding it yielded.
pub fn classify_decoded(decoded: Result<Decoded, String>) -> (result: Result<
    DebugEvent,
    ClassifyError,
>)
    ensures
        outcome(result) == classification(decode_outcome(decoded)),
{
    match decoded {
        Err(reason) => Err(ClassifyError::Malformed { reason }),
        Ok(Decoded { kind, category, payload }) => match kind {
            Kind::ConsoleCall => {
                let log_type = match category {
                    Some(category) => category,
                    None => String::new(),
                };
                Ok(DebugEvent::ConsoleCall { log_type, payload })
            },
            Kind::ExceptionThrown => Ok(DebugEvent::ExceptionThrown { payload }),
            Kind::Other => Err(ClassifyError::Unsupported),
        },
    }
}

/// Classifies one inbound text frame.
///
/// The classifier keeps no state: the outcome, the value carried included,
/// depends on the text alone.
pub fn classify(raw: &str) -> (result: Result<DebugEvent, ClassifyError>)
    ensures
        outcome(result) == classified(raw@),
{
    classify_decoded(decode(raw, "/params/type"))
}

} // verus!
