use vstd::prelude::*;
use vstd::string::*;

use crate::models::{Envelope, Event};

verus! {

/// A destination of the monitor's events. `send` wraps an event in the record
/// that the destination stores; storing it is I/O and is left to the caller.
pub trait EventSender {
    /// The session whose events the sender stores.
    spec fn session_spec(&self) -> Seq<char>;

    fn send(&self, event: Event, timestamp: String) -> (r: Envelope)
        ensures
            r.session_id@ == self.session_spec(),
            r.timestamp == timestamp,
            r.event == event,
    ;
}

/// The step of storing a record at which something failed.
#[derive(Debug, Clone, Copy, PartialEq, Eq, Structural)]
pub enum SendStage {
    Serialize,
    Open,
    Write,
}

/// A sender that appends each record as a line of JSON to a file.
#[derive(Debug, Clone, PartialEq, Eq)]
pub struct JsonSender {
    pub path: String,
    pub session_id: String,
}

impl JsonSender {
    /// A sender for the file at `path`, once the caller has tried to open it
    /// for appending (`opened`); the error names what went wrong.
    pub fn new(path: &str, session_id: String, opened: Result<(), String>) -> (r: Result<
        Self,
        String,
    >)
        ensures
            match opened {
                Ok(()) => r matches Ok(s) && s.path@ == path@ && s.session_id == session_id,
                Err(e) => r matches Err(m) && m@ == "Cannot open: "@ + e@,
            },
    {
        match opened {
            Ok(()) => Ok(JsonSender { path: String::from_str(path), session_id }),
            Err(e) => {
                let mut m = String::from_str("Cannot open: ");
                m.append(e.as_str());
                Err(m)
            },
        }
    }

    /// The line that stores a serialized record.
    pub fn frame(line: &str) -> (r: String)
        ensures
            r@ == line@ + "\n"@,
    {
        let mut r = String::from_str(line);
        r.append("\n");
        r
    }

    /// The message for a failure to store a record.
    pub fn error_text(stage: SendStage, e: &str) -> (r: String)
        ensures
            r@ == match stage {
                SendStage::Serialize => "JSON error: "@,
                SendStage::Open => "Cannot open: "@,
                SendStage::Write => "Write error: "@,
            } + e@,
    {
        let mut r = match stage {
            SendStage::Serialize => String::from_str("JSON error: "),
            SendStage::Open => String::from_str("Cannot open: "),
            SendStage::Write => String::from_str("Write error: "),
        };
        r.append(e);
        r
    }
}

impl EventSender for JsonSender {
    open spec fn session_spec(&self) -> Seq<char> {
        self.session_id@
    }

    fn send(&self, event: Event, timestamp: String) -> (r: Envelope) {
        Envelope { session_id: self.session_id.clone(), timestamp, event }
    }
}

} // verus!
