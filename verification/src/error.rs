//! What can go wrong, at which stage, and how it is reported.
//!
//! Every failure is fatal: nothing is retried. A failure names the stage at
//! which it happened and carries the underlying cause as text; its message is
//! one line made of both.

use crate::text::leading;
use vstd::prelude::*;
use vstd::string::*;

verus! {

/// The stage at which something failed.
#[derive(Copy, Clone, Debug, PartialEq, Eq, Structural)]
pub enum ErrorKind {
    /// The configuration could not be read.
    ConfigRead,
    /// The configuration is not well-formed, or a slot is not written as a
    /// number.
    ConfigParse,
    /// A slot number lies outside 1 to 12.
    InvalidSlot,
    /// A key name is not one of the accepted names.
    InvalidKeyName,
    /// No device with the expected name and port was found.
    DeviceNotFound,
    /// The device was found but could not be taken over exclusively.
    Grab,
    /// Reading the next event from the device failed.
    EventRead,
    /// The synthetic keyboard refused a press, release or synchronize.
    OutputWrite,
}

/// A failure as contracts see it: the stage and the characters of the cause.
pub struct Failure {
    pub kind: ErrorKind,
    pub detail: Seq<char>,
}

/// A fatal error: the stage at which it happened, and the cause. The cause is
/// the offending text of a configuration entry, or what the operating system
/// reported; it may be empty.
#[derive(Clone, Debug, PartialEq, Eq)]
pub struct RemapError {
    pub kind: ErrorKind,
    pub detail: String,
}

impl View for RemapError {
    type V = Failure;

    open spec fn view(&self) -> Failure {
        Failure { kind: self.kind, detail: self.detail@ }
    }
}

/// The words that introduce a failure of the given stage.
pub open spec fn context_of(kind: ErrorKind) -> Seq<char> {
    match kind {
        ErrorKind::ConfigRead => "Config read error"@,
        ErrorKind::ConfigParse => "Config parse error"@,
        ErrorKind::InvalidSlot => "Invalid key number"@,
        ErrorKind::InvalidKeyName => "Invalid keycode"@,
        ErrorKind::DeviceNotFound => "No device found"@,
        ErrorKind::Grab => "Could not grab device"@,
        ErrorKind::EventRead => "Event read error"@,
        ErrorKind::OutputWrite => "Process event error"@,
    }
}

/// The one-line message of a failure: the stage's words alone where no cause
/// is known, else the words, a colon, a blank and the cause.
pub open spec fn message_of(failure: Failure) -> Seq<char> {
    if failure.detail.len() == 0 {
        context_of(failure.kind)
    } else {
        context_of(failure.kind) + ": "@ + failure.detail
    }
}

impl ErrorKind {
    /// The words that introduce a failure of this stage.
    pub fn context(self) -> (words: &'static str)
        ensures
            words@ == context_of(self),
    {
        match self {
            ErrorKind::ConfigRead => "Config read error",
            ErrorKind::ConfigParse => "Config parse error",
            ErrorKind::InvalidSlot => "Invalid key number",
            ErrorKind::InvalidKeyName => "Invalid keycode",
            ErrorKind::DeviceNotFound => "No device found",
            ErrorKind::Grab => "Could not grab device",
            ErrorKind::EventRead => "Event read error",
            ErrorKind::OutputWrite => "Process event error",
        }
    }
}

impl RemapError {
    /// A failure of the given stage with the given cause.
    pub fn with_detail(kind: ErrorKind, detail: &str) -> (error: RemapError)
        ensures
            error@ == (Failure { kind, detail: detail@ }),
    {
        RemapError { kind, detail: String::from_str(detail) }
    }

    /// The one-line message to show for this error.
    pub fn message(&self) -> (text: String)
        ensures
            text@ == message_of(self@),
    {
        let mut text = String::from_str(self.kind.context());
        if !self.detail.as_str().is_empty() {
            text.append(": ");
            text.append(self.detail.as_str());
        }
        text
    }
}

/// The message of a failure tells its stage: failures of two different stages
/// never have the same message, whatever their causes.
pub proof fn lemma_message_tells_kind(a: Failure, b: Failure)
    requires
        message_of(a) == message_of(b),
    ensures
        a.kind == b.kind,
{
    reveal_strlit("Config read error");
    reveal_strlit("Config parse error");
    reveal_strlit("Invalid key number");
    reveal_strlit("Invalid keycode");
    reveal_strlit("No device found");
    reveal_strlit("Could not grab device");
    reveal_strlit("Event read error");
    reveal_strlit("Process event error");
    assert(leading(message_of(a)) == leading(context_of(a.kind)));
    assert(leading(message_of(b)) == leading(context_of(b.kind)));
}

} // verus!
