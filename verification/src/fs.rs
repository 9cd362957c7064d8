use vstd::prelude::*;
use vstd::string::StringExecFns;

verus! {

/// The kind of a watcher event, `notify::EventKind`, as an opaque value.
#[verifier::external_type_specification]
#[verifier::external_body]
pub struct ExEventKind(notify::EventKind);

/// A change in a watched directory, as it is handed on.
#[derive(Debug, Clone)]
pub struct FsChangeEvent {
    pub kind: String,
    pub path: String,
}

/// What happened to a path.
#[derive(Clone, Copy, Debug, PartialEq, Eq, Structural)]
pub enum ChangeKind {
    Create,
    Modify,
    Remove,
    Access,
    Any,
    Other,
}

/// The word for a kind of change.
pub open spec fn kind_label(kind: ChangeKind) -> Seq<char> {
    match kind {
        ChangeKind::Create => "create"@,
        ChangeKind::Modify => "modify"@,
        ChangeKind::Remove => "remove"@,
        ChangeKind::Access => "access"@,
        ChangeKind::Any => "any"@,
        ChangeKind::Other => "other"@,
    }
}

/// The word for a kind of change.
pub fn describe_change(kind: ChangeKind) -> (r: String)
    ensures
        r@ == kind_label(kind),
{
    match kind {
        ChangeKind::Create => String::from_str("create"),
        ChangeKind::Modify => String::from_str("modify"),
        ChangeKind::Remove => String::from_str("remove"),
        ChangeKind::Access => String::from_str("access"),
        ChangeKind::Any => String::from_str("any"),
        ChangeKind::Other => String::from_str("other"),
    }
}

/// Tells the variants of `notify::EventKind` apart. Nothing is claimed of
/// the answer.
#[verifier::external_body]
fn change_kind(kind: &notify::EventKind) -> (r: ChangeKind) {
    match kind {
        notify::EventKind::Create(_) => ChangeKind::Create,
        notify::EventKind::Modify(_) => ChangeKind::Modify,
        notify::EventKind::Remove(_) => ChangeKind::Remove,
        notify::EventKind::Access(_) => ChangeKind::Access,
        notify::EventKind::Any => ChangeKind::Any,
        _ => ChangeKind::Other,
    }
}

/// The word for the kind of a watcher event: one of the six words for a
/// kind of change.
pub fn describe_event_kind(kind: &notify::EventKind) -> (r: String)
    ensures
        exists|k: ChangeKind| r@ == kind_label(k),
{
    let k = change_kind(kind);
    describe_change(k)
}

/// The least time, in milliseconds, between two events for one path.
pub const MIN_EVENT_GAP_MS: u64 = 200;

/// Whether a change is to be handed on: there was no earlier one for the
/// path, or at least the minimal gap lies between the two. A clock that ran
/// backwards counts as no time passed.
pub open spec fn emits(previous: Option<u64>, now: u64) -> bool {
    match previous {
        Some(earlier) => now >= earlier && now - earlier >= MIN_EVENT_GAP_MS,
        None => true,
    }
}

/// Decides whether a change at time `now` is handed on, where `previous` is
/// the time of the last change handed on for the same path. Times are in
/// milliseconds.
pub fn should_emit(previous: Option<u64>, now: u64) -> (r: bool)
    ensures
        r == emits(previous, now),
{
    match previous {
        Some(earlier) => now >= earlier && now - earlier >= MIN_EVENT_GAP_MS,
        None => true,
    }
}

} // verus!
