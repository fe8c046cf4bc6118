//! Classification of raw filesystem notifications into synchronization
//! intents.
//!
//! A raw notification is reduced to the closed set of shapes the classifier
//! distinguishes; everything else (metadata-only changes, access events,
//! platform-specific kinds) is `Other`. `Rename` and `Other` intents are
//! unsupported by the synchronization protocol and never reach the wire.

use vstd::prelude::*;
use vstd::string::*;

verus! {

/// The shape of a raw filesystem notification, as far as classification
/// cares: creations and removals of files and folders, content
/// modifications, name modifications, and everything else.
#[derive(Clone, Copy, Debug, PartialEq, Eq, Structural)]
pub enum RawEventKind {
    CreateFile,
    CreateFolder,
    ModifyContent,
    ModifyName,
    RemoveFile,
    RemoveFolder,
    Other,
}

/// A synchronization intent. `Override` is synthesized only for the initial
/// full sync; the others come from live filesystem events. `Rename` and
/// `Other` never produce a dispatched request.
#[derive(Clone, Copy, Debug, PartialEq, Eq, Structural)]
pub enum EventKinds {
    Override,
    Create,
    Modify,
    Rename,
    Remove,
    Other,
}

/// The intent a raw notification maps to.
pub open spec fn classify(kind: RawEventKind) -> EventKinds {
    match kind {
        RawEventKind::CreateFile => EventKinds::Create,
        RawEventKind::CreateFolder => EventKinds::Create,
        RawEventKind::ModifyContent => EventKinds::Modify,
        RawEventKind::ModifyName => EventKinds::Rename,
        RawEventKind::RemoveFile => EventKinds::Remove,
        RawEventKind::RemoveFolder => EventKinds::Remove,
        RawEventKind::Other => EventKinds::Other,
    }
}

/// The protocol has no primitive for this intent: the event is dropped
/// instead of dispatched.
pub open spec fn unsupported(kind: EventKinds) -> bool {
    kind is Rename || kind is Other
}

/// The literal string that names this intent on the wire.
pub open spec fn label(kind: EventKinds) -> Seq<char> {
    match kind {
        EventKinds::Override => "Override"@,
        EventKinds::Create => "Create"@,
        EventKinds::Modify => "Modify"@,
        EventKinds::Rename => "Rename"@,
        EventKinds::Remove => "Remove"@,
        EventKinds::Other => "Other"@,
    }
}

impl From<RawEventKind> for EventKinds {
    fn from(kind: RawEventKind) -> (r: Self) {
        match kind {
            RawEventKind::CreateFile => EventKinds::Create,
            RawEventKind::CreateFolder => EventKinds::Create,
            RawEventKind::ModifyContent => EventKinds::Modify,
            RawEventKind::ModifyName => EventKinds::Rename,
            RawEventKind::RemoveFile => EventKinds::Remove,
            RawEventKind::RemoveFolder => EventKinds::Remove,
            RawEventKind::Other => EventKinds::Other,
        }
    }
}

impl vstd::std_specs::convert::FromSpecImpl<RawEventKind> for EventKinds {
    open spec fn obeys_from_spec() -> bool {
        true
    }

    open spec fn from_spec(kind: RawEventKind) -> EventKinds {
        classify(kind)
    }
}

impl EventKinds {
    /// The wire name of this intent.
    pub fn to_string(&self) -> (r: String)
        ensures
            r@ == label(*self),
    {
        match self {
            EventKinds::Override => String::from_str("Override"),
            EventKinds::Create => String::from_str("Create"),
            EventKinds::Modify => String::from_str("Modify"),
            EventKinds::Rename => String::from_str("Rename"),
            EventKinds::Remove => String::from_str("Remove"),
            EventKinds::Other => String::from_str("Other"),
        }
    }

    /// Whether the synchronization protocol has no primitive for this
    /// intent, so the event must be dropped rather than dispatched.
    pub fn is_unsupported(&self) -> (r: bool)
        ensures
            r == unsupported(*self),
    {
        match self {
            EventKinds::Rename => true,
            EventKinds::Other => true,
            _ => false,
        }
    }
}

} // verus!
