//! From the events of the mouse to the calls on the synthetic keyboard.
//!
//! Each event is looked at on its own: a key event of a mapped button becomes
//! a press or a release of the mapped key, a synchronization event is passed
//! on, everything else is dropped. The calls therefore come out in the order
//! in which the events came in.

use crate::error::{ErrorKind, Failure, RemapError};
use crate::input::Input;
use crate::key_map::{lookup, KeyMapper, FIRST_CODE, SLOTS};
use vstd::prelude::*;

verus! {

/// The value of a key event that reports a button going down.
pub const PRESSED: i32 = 1;

/// The value of a key event that reports a button coming up.
pub const RELEASED: i32 = 0;

/// One event as read from the mouse.
#[derive(Copy, Clone, Debug, PartialEq, Eq)]
pub enum RawEvent {
    /// A key or button changed: its physical code, and 1 for pressed, 0 for
    /// released, anything else for what the kernel adds (auto-repeat).
    Key { code: u16, value: i32 },
    /// The marker that ends a batch of events.
    Sync,
    /// Any other kind of event, such as motion.
    Other,
}

/// One call on the synthetic keyboard.
#[derive(Copy, Clone, Debug, PartialEq, Eq)]
pub enum OutputCall {
    Press(Input),
    Release(Input),
    Synchronize,
}

/// The call that an event leads to under the table `keys`, if any.
pub open spec fn call_for(keys: Seq<Input>, event: RawEvent) -> Option<OutputCall> {
    match event {
        RawEvent::Key { code, value } => match lookup(keys, code as int) {
            Some(key) => if value == PRESSED {
                Some(OutputCall::Press(key))
            } else if value == RELEASED {
                Some(OutputCall::Release(key))
            } else {
                None
            },
            None => None,
        },
        RawEvent::Sync => Some(OutputCall::Synchronize),
        RawEvent::Other => None,
    }
}

/// The calls that a run of events leads to, first event first.
pub open spec fn calls_for(keys: Seq<Input>, events: Seq<RawEvent>) -> Seq<OutputCall>
    decreases events.len(),
{
    if events.len() == 0 {
        Seq::empty()
    } else {
        let earlier = calls_for(keys, events.drop_last());
        match call_for(keys, events.last()) {
            Some(call) => earlier.push(call),
            None => earlier,
        }
    }
}

/// What came back from the devices after the last step of the loop.
#[derive(Clone, Debug, PartialEq, Eq)]
pub enum Outcome {
    /// An event was read.
    EventRead(RawEvent),
    /// Reading failed, for the given cause.
    ReadFailed(String),
    /// The synthetic keyboard took the call.
    CallDone,
    /// The synthetic keyboard refused the call, for the given cause.
    CallFailed(String),
}

/// What the loop does next.
#[derive(Clone, Debug, PartialEq, Eq)]
pub enum Action {
    /// Block until the mouse has the next event.
    ReadEvent,
    /// Make this call on the synthetic keyboard.
    Call(OutputCall),
    /// Give up with this error.
    Stop(RemapError),
}

/// The call on the synthetic keyboard that one event leads to, if any.
///
/// A key event of one of the twelve buttons, which report the codes 2 to 13,
/// gives a press for value 1 and a release for value 0 of the key in the
/// button's slot. A synchronization event is passed on. Other values, other
/// codes and other kinds of event give nothing.
pub fn process_event(key_mapper: &KeyMapper, event: RawEvent) -> (call: Option<OutputCall>)
    ensures
        call == call_for(key_mapper@, event),
        event matches RawEvent::Key { value, .. } && value != PRESSED && value != RELEASED
            ==> call is None,
        event matches RawEvent::Key { code, .. } && (code < FIRST_CODE || code >= SLOTS
            + FIRST_CODE) ==> call is None,
        event is Sync ==> call == Some(OutputCall::Synchronize),
        event is Other ==> call is None,
{
    match event {
        RawEvent::Key { code, value } => match key_mapper.get(code) {
            Some(key) => if value == PRESSED {
                Some(OutputCall::Press(key))
            } else if value == RELEASED {
                Some(OutputCall::Release(key))
            } else {
                None
            },
            None => None,
        },
        RawEvent::Sync => Some(OutputCall::Synchronize),
        RawEvent::Other => None,
    }
}

/// The calls on the synthetic keyboard that a run of events leads to, in the
/// order of the events.
pub fn map_events(key_mapper: KeyMapper, events: &[RawEvent]) -> (calls: Vec<OutputCall>)
    ensures
        calls@ == calls_for(key_mapper@, events@),
{
    let mut calls: Vec<OutputCall> = Vec::new();
    let mut i: usize = 0;
    while i < events.len()
        invariant
            i <= events.len(),
            calls@ == calls_for(key_mapper@, events@.take(i as int)),
        decreases events.len() - i,
    {
        assert(events@.take(i + 1).drop_last() == events@.take(i as int));
        match process_event(&key_mapper, events[i]) {
            Some(call) => {
                calls.push(call);
            },
            None => {},
        }
        i += 1;
    }
    assert(events@.take(i as int) == events@);
    calls
}

/// The next step of the translation loop, given what the last step brought.
///
/// After an event, the call it leads to, or the next read where it leads to
/// none. After a call that was taken, the next read. After a failed read or
/// a refused call the loop stops, with `EventRead` or `OutputWrite` and the
/// cause: nothing is retried.
pub fn next_action(key_mapper: &KeyMapper, outcome: Outcome) -> (action: Action)
    ensures
        match outcome {
            Outcome::EventRead(event) => match call_for(key_mapper@, event) {
                Some(call) => action == Action::Call(call),
                None => action == Action::ReadEvent,
            },
            Outcome::CallDone => action == Action::ReadEvent,
            Outcome::ReadFailed(cause) => action matches Action::Stop(error) && error@ == (Failure {
                kind: ErrorKind::EventRead,
                detail: cause@,
            }),
            Outcome::CallFailed(cause) => action matches Action::Stop(error) && error@ == (Failure {
                kind: ErrorKind::OutputWrite,
                detail: cause@,
            }),
        },
{
    match outcome {
        Outcome::EventRead(event) => match process_event(key_mapper, event) {
            Some(call) => Action::Call(call),
            None => Action::ReadEvent,
        },
        Outcome::CallDone => Action::ReadEvent,
        Outcome::ReadFailed(cause) => Action::Stop(
            RemapError { kind: ErrorKind::EventRead, detail: cause },
        ),
        Outcome::CallFailed(cause) => Action::Stop(
            RemapError { kind: ErrorKind::OutputWrite, detail: cause },
        ),
    }
}

/// The calls for two runs of events, one after the other, are the calls for
/// the first run followed by the calls for the second: no call is lost, added
/// or moved across the boundary between them.
pub proof fn lemma_calls_in_order(keys: Seq<Input>, first: Seq<RawEvent>, second: Seq<RawEvent>)
    ensures
        calls_for(keys, first + second) == calls_for(keys, first) + calls_for(keys, second),
    decreases second.len(),
{
    if second.len() > 0 {
        assert((first + second).drop_last() == first + second.drop_last());
        lemma_calls_in_order(keys, first, second.drop_last());
    }
}

/// A run of events none of which leads to a call leads to no call at all.
pub proof fn lemma_silent_events_emit_nothing(keys: Seq<Input>, events: Seq<RawEvent>)
    requires
        forall|i: int| 0 <= i < events.len() ==> call_for(keys, #[trigger] events[i]) is None,
    ensures
        calls_for(keys, events) == Seq::<OutputCall>::empty(),
    decreases events.len(),
{
    if events.len() > 0 {
        let earlier = events.drop_last();
        assert forall|i: int| 0 <= i < earlier.len() implies call_for(
            keys,
            #[trigger] earlier[i],
        ) is None by {
            assert(earlier[i] == events[i]);
        }
        lemma_silent_events_emit_nothing(keys, earlier);
    }
}

} // verus!
