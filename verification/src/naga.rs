//! Which of the input devices is the mouse, and how the search for it goes.
//!
//! Several devices report the mouse's name, one for each of its endpoints.
//! The twelve buttons are on the endpoint whose physical port ends in a fixed
//! suffix, so a device is the target only if both its name and the end of its
//! port agree. The search takes the first such device, in the order in which
//! the system lists them.

use crate::error::{ErrorKind, Failure, RemapError};
use crate::text::{ends_with, has_suffix, same_text};
use vstd::prelude::*;

verus! {

/// The name that the mouse reports.
pub const DEVICE_NAME: &'static str = "Razer Razer Naga 2014";

/// The end of the physical port of the endpoint that has the buttons.
pub const PORT_SUFFIX: &'static str = "/input2";

/// What one entry of the device directory turned out to be.
#[derive(Clone, Debug, PartialEq, Eq)]
pub enum Probe {
    /// It could not be opened, or is no input device.
    Unreadable,
    /// An input device, with the name and the physical port it reports.
    Device { name: Option<String>, phys: Option<String> },
}

/// What came back after the last step of the search.
#[derive(Clone, Debug, PartialEq, Eq)]
pub enum ScanOutcome {
    /// The device directory could not be listed, for the given cause.
    ListingFailed(String),
    /// The next entry of the directory.
    Entry(Probe),
    /// The directory has no more entries.
    Exhausted,
    /// The device is now held exclusively.
    Grabbed,
    /// The device could not be taken exclusively, for the given cause.
    GrabFailed(String),
}

/// What the search does next.
#[derive(Clone, Debug, PartialEq, Eq)]
pub enum ScanAction {
    /// Drop the current entry and look at the next one.
    NextEntry,
    /// Take the current entry's device exclusively.
    Grab,
    /// The device is ready: start reading events.
    Ready,
    /// Give up with this error.
    Fail(RemapError),
}

/// A device with this name and physical port is the mouse's button endpoint.
pub open spec fn is_target(name: Seq<char>, phys: Seq<char>) -> bool {
    name == DEVICE_NAME@ && has_suffix(phys, PORT_SUFFIX@)
}

/// The characters of a text that a device may not report: none where it
/// reports nothing.
pub open spec fn reported(text: Option<String>) -> Seq<char> {
    match text {
        Some(text) => text@,
        None => Seq::empty(),
    }
}

/// The entry is the mouse's button endpoint.
pub open spec fn probe_is_target(probe: Probe) -> bool {
    match probe {
        Probe::Unreadable => false,
        Probe::Device { name, phys } => is_target(reported(name), reported(phys)),
    }
}

/// The position of the first entry that is the mouse's button endpoint, if
/// any entry is.
pub open spec fn selected(probes: Seq<Probe>) -> Option<int>
    decreases probes.len(),
{
    if probes.len() == 0 {
        None
    } else if probe_is_target(probes[0]) {
        Some(0int)
    } else {
        match selected(probes.skip(1)) {
            Some(i) => Some(i + 1),
            None => None,
        }
    }
}

/// Whether a device with this name and physical port is the mouse's button
/// endpoint: the name must be equal to the expected one, and the port must
/// end in the expected suffix.
pub fn is_target_device(name: &str, phys: &str) -> (found: bool)
    ensures
        found == is_target(name@, phys@),
{
    same_text(name, DEVICE_NAME) && ends_with(phys, PORT_SUFFIX)
}

/// The text that a device reports, empty where it reports none.
fn text_of(text: &Option<String>) -> (chars: &str)
    ensures
        chars@ == reported(*text),
{
    match text {
        Some(text) => text.as_str(),
        None => {
            proof {
                reveal_strlit("");
            }
            ""
        },
    }
}

impl Probe {
    /// Whether this entry is the mouse's button endpoint. An entry that could
    /// not be read is not; a name or port that is not reported counts as
    /// empty.
    pub fn is_target(&self) -> (found: bool)
        ensures
            found == probe_is_target(*self),
    {
        match self {
            Probe::Unreadable => false,
            Probe::Device { name, phys } => is_target_device(text_of(name), text_of(phys)),
        }
    }
}

/// The position of the first entry that is the mouse's button endpoint, or
/// `None` where no entry is. Entries before it are passed over, whatever
/// they are.
pub fn select(probes: &[Probe]) -> (found: Option<usize>)
    ensures
        match found {
            Some(i) => {
                &&& selected(probes@) == Some(i as int)
                &&& i < probes.len()
                &&& probe_is_target(probes[i as int])
                &&& forall|j: int| 0 <= j < i ==> !probe_is_target(#[trigger] probes[j])
            },
            None => {
                &&& selected(probes@) is None
                &&& forall|j: int| 0 <= j < probes.len() ==> !probe_is_target(#[trigger] probes[j])
            },
        },
{
    let mut i: usize = 0;
    assert(probes@.skip(0) == probes@);
    while i < probes.len()
        invariant
            i <= probes.len(),
            forall|j: int| 0 <= j < i ==> !probe_is_target(#[trigger] probes[j]),
            selected(probes@) == match selected(probes@.skip(i as int)) {
                Some(k) => Some(k + i),
                None => None,
            },
        decreases probes.len() - i,
    {
        assert(probes@.skip(i as int)[0] == probes[i as int]);
        assert(probes@.skip(i as int).skip(1) == probes@.skip(i + 1));
        if probes[i].is_target() {
            return Some(i);
        }
        i += 1;
    }
    None
}

/// The next step of the search, given what the last step brought.
///
/// An entry that is the target is grabbed at once; any other entry is passed
/// over. When the entries run out, or the directory cannot be listed at all,
/// the search fails with `DeviceNotFound`. A grab that fails ends the search
/// with `Grab` and the cause; one that succeeds ends it with the device
/// ready.
pub fn next_scan_action(outcome: ScanOutcome) -> (action: ScanAction)
    ensures
        match outcome {
            ScanOutcome::Entry(probe) => if probe_is_target(probe) {
                action == ScanAction::Grab
            } else {
                action == ScanAction::NextEntry
            },
            ScanOutcome::Grabbed => action == ScanAction::Ready,
            ScanOutcome::Exhausted => action matches ScanAction::Fail(error) && error@ == (Failure {
                kind: ErrorKind::DeviceNotFound,
                detail: Seq::empty(),
            }),
            ScanOutcome::ListingFailed(cause) => action matches ScanAction::Fail(error) && error@
                == (Failure { kind: ErrorKind::DeviceNotFound, detail: cause@ }),
            ScanOutcome::GrabFailed(cause) => action matches ScanAction::Fail(error) && error@
                == (Failure { kind: ErrorKind::Grab, detail: cause@ }),
        },
{
    match outcome {
        ScanOutcome::Entry(probe) => if probe.is_target() {
            ScanAction::Grab
        } else {
            ScanAction::NextEntry
        },
        ScanOutcome::Grabbed => ScanAction::Ready,
        ScanOutcome::Exhausted => ScanAction::Fail(
            RemapError { kind: ErrorKind::DeviceNotFound, detail: String::new() },
        ),
        ScanOutcome::ListingFailed(cause) => ScanAction::Fail(
            RemapError { kind: ErrorKind::DeviceNotFound, detail: cause },
        ),
        ScanOutcome::GrabFailed(cause) => ScanAction::Fail(
            RemapError { kind: ErrorKind::Grab, detail: cause },
        ),
    }
}

/// Of two devices that report the mouse's name, one on the expected port and
/// one on another, the one on the expected port is selected, whichever of
/// the two is listed first. The other is passed over.
pub proof fn lemma_other_port_is_skipped(target: Probe, other: Probe)
    requires
        target matches Probe::Device { name, phys } && reported(name) == DEVICE_NAME@
            && has_suffix(reported(phys), PORT_SUFFIX@),
        other matches Probe::Device { name, phys } && reported(name) == DEVICE_NAME@
            && !has_suffix(reported(phys), PORT_SUFFIX@),
    ensures
        probe_is_target(target),
        !probe_is_target(other),
        selected(seq![target, other]) == Some(0int),
        selected(seq![other, target]) == Some(1int),
{
    let swapped = seq![other, target];
    assert(swapped[0] == other);
    assert(swapped.skip(1)[0] == target);
    assert(selected(swapped.skip(1)) == Some(0int));
}

} // verus!
