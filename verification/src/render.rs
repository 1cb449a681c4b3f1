//! How a recognised event is shown.
//!
//! Rendering decides on which stream an event goes, in which tone it is
//! coloured and what is written in front of it. It writes nothing itself, and
//! it never ends a session.

use vstd::prelude::*;
use chrome_devtools::runtime::Event as Payload;
use crate::event::{DebugEvent, DebugEventModel};

verus! {

/// The two streams a session writes to.
#[derive(Clone, Copy, Debug, PartialEq, Eq, Structural)]
pub enum Stream {
    /// Standard output: what the remote program reports.
    Stdout,
    /// Standard error: what went wrong in the remote program.
    Stderr,
}

/// The colouring of a line.
#[derive(Clone, Copy, Debug, PartialEq, Eq, Structural)]
pub enum Tone {
    /// Blue, for ordinary console output.
    Informational,
    /// Red, for console errors.
    Error,
    /// Bold red, for uncaught exceptions.
    Emphasis,
    /// No colour.
    Plain,
}

/// One line to write: where, in which tone, what to put in front, and the
/// decoded event whose text follows.
#[derive(Debug)]
pub struct Rendering {
    pub stream: Stream,
    pub tone: Tone,
    pub label: String,
    pub payload: Payload,
}

/// A rendering as contracts speak of it.
pub struct RenderingModel {
    pub stream: Stream,
    pub tone: Tone,
    pub label: Seq<char>,
    pub payload: Payload,
}

impl View for Rendering {
    type V = RenderingModel;

    open spec fn view(&self) -> RenderingModel {
        RenderingModel {
            stream: self.stream,
            tone: self.tone,
            label: self.label@,
            payload: self.payload,
        }
    }
}

/// What is written in front of a console call of a category that is neither
/// `log` nor `error`: a note that names the category.
pub open spec fn unknown_label(category: Seq<char>) -> Seq<char> {
    "unknown console event ("@ + category + "): "@
}

/// How each event is shown. Console calls of category `log` go to standard
/// output in the informational tone, those of category `error` to standard
/// error in the error tone. A console call of any other category goes to
/// standard output, uncoloured, behind a note that names the category.
/// Exceptions go to standard error, emphasised. What is written after the
/// label is the text of the value the event carries.
pub open spec fn rendering_of(event: DebugEventModel) -> RenderingModel {
    match event {
        DebugEventModel::ConsoleCall { category, payload } => if category == "log"@ {
            RenderingModel {
                stream: Stream::Stdout,
                tone: Tone::Informational,
                label: Seq::empty(),
                payload,
            }
        } else if category == "error"@ {
            RenderingModel { stream: Stream::Stderr, tone: Tone::Error, label: Seq::empty(), payload }
        } else {
            RenderingModel {
                stream: Stream::Stdout,
                tone: Tone::Plain,
                label: unknown_label(category),
                payload,
            }
        },
        DebugEventModel::ExceptionThrown { payload } => RenderingModel {
            stream: Stream::Stderr,
            tone: Tone::Emphasis,
            label: Seq::empty(),
            payload,
        },
    }
}

fn is_literal(text: &String, literal: &'static str) -> (same: bool)
    ensures
        same == (text@ == literal@),
{
    let other = String::from_str(literal);
    *text == other
}

/// Decides how `event` is shown. Every event is shown: none is dropped.
pub fn render(event: DebugEvent) -> (rendering: Rendering)
    ensures
        rendering@ == rendering_of(event@),
{
    match event {
        DebugEvent::ConsoleCall { log_type, payload } => {
            if is_literal(&log_type, "log") {
                Rendering {
                    stream: Stream::Stdout,
                    tone: Tone::Informational,
                    label: String::new(),
                    payload,
                }
            } else if is_literal(&log_type, "error") {
                Rendering { stream: Stream::Stderr, tone: Tone::Error, label: String::new(), payload }
            } else {
                let mut label = String::from_str("unknown console event (");
                label.append(log_type.as_str());
                label.append("): ");
                Rendering { stream: Stream::Stdout, tone: Tone::Plain, label, payload }
            }
        },
        DebugEvent::ExceptionThrown { payload } => Rendering {
            stream: Stream::Stderr,
            tone: Tone::Emphasis,
            label: String::new(),
            payload,
        },
    }
}

} // verus!
