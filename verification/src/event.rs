//! Event classification: raw filesystem notifications are normalized into a
//! small set of semantic change kinds, or silently dropped.

use vstd::prelude::*;

verus! {

/// One raw notification from the event source, with paths already rendered
/// as text (the caller performs the platform's lossy path-to-text
/// conversion before handing the notification in).
#[derive(Debug, Clone, PartialEq, Eq)]
pub enum RawNotification {
    /// A write to a file is about to be delivered (pre-write notice).
    NoticeWrite(String),
    /// A file is about to disappear (pre-removal notice).
    NoticeRemove(String),
    /// A file appeared.
    Create(String),
    /// The debounced write for a file, delivered after the notice.
    Write(String),
    /// Metadata (permissions, timestamps) changed.
    Chmod(String),
    /// The debounced removal for a file, delivered after the notice.
    Remove(String),
    /// A file was renamed; the first path is the prior name, the second the
    /// new one.
    Rename(String, String),
    /// The event source asks for a full rescan of the watched tree.
    Rescan,
    /// The event source reports an internal error, possibly tied to a path.
    Error(String, Option<String>),
}

/// The semantic kind of a classified change.
#[derive(Debug, Clone, Copy, PartialEq, Eq, Structural)]
pub enum ChangeKind {
    Created,
    Modified,
    Removed,
    Renamed,
}

/// One filesystem occurrence, produced by `classify` and consumed
/// immediately by the filter; never persisted or queued.
///
/// `origin_path` is populated only for `Renamed`, holding the prior name;
/// `path` is then the new name.
#[derive(Debug, Clone, PartialEq, Eq)]
pub struct ChangeEvent {
    pub kind: ChangeKind,
    pub path: String,
    pub origin_path: Option<String>,
}

impl ChangeEvent {
    /// The prior name as a sequence of characters, where one exists.
    pub open spec fn origin_view(self) -> Option<Seq<char>> {
        match self.origin_path {
            None => None,
            Some(origin) => Some(origin@),
        }
    }

    /// A well-formed event carries an origin exactly when it is a rename.
    pub open spec fn wf(self) -> bool {
        self.origin_path is Some <==> self.kind is Renamed
    }
}

/// What `classify` returns.  A file appearing is `Created`; a content or
/// metadata change — the pre-write notice included — is `Modified`; a
/// disappearance — the pre-removal notice included — is `Removed`; a
/// rename is `Renamed`.  Only the rescan signal and the error report fall
/// outside the classified set and are dropped.
pub open spec fn classify_spec(n: RawNotification) -> Option<ChangeEvent> {
    match n {
        RawNotification::Create(path) => Some(ChangeEvent {
            kind: ChangeKind::Created,
            path,
            origin_path: None,
        }),
        RawNotification::NoticeWrite(path) => Some(ChangeEvent {
            kind: ChangeKind::Modified,
            path,
            origin_path: None,
        }),
        RawNotification::Write(path) => Some(ChangeEvent {
            kind: ChangeKind::Modified,
            path,
            origin_path: None,
        }),
        RawNotification::Chmod(path) => Some(ChangeEvent {
            kind: ChangeKind::Modified,
            path,
            origin_path: None,
        }),
        RawNotification::NoticeRemove(path) => Some(ChangeEvent {
            kind: ChangeKind::Removed,
            path,
            origin_path: None,
        }),
        RawNotification::Remove(path) => Some(ChangeEvent {
            kind: ChangeKind::Removed,
            path,
            origin_path: None,
        }),
        RawNotification::Rename(origin, path) => Some(ChangeEvent {
            kind: ChangeKind::Renamed,
            path,
            origin_path: Some(origin),
        }),
        _ => None,
    }
}

/// The path a classified notification reports: the current location of the
/// change, which for a rename is the new name.
pub open spec fn classified_path(n: RawNotification) -> Seq<char>
    recommends
        classify_spec(n) is Some,
{
    match classify_spec(n) {
        Some(event) => event.path@,
        None => Seq::<char>::empty(),
    }
}

/// Normalize a raw notification into a semantic change event, or drop it.
///
/// Content and metadata changes — the pre-write notice included — become
/// `Modified`; disappearances — the pre-removal notice included — become
/// `Removed`; a rename keeps its prior name in `origin_path`.  Rescan
/// signals and error reports yield `None` and never reach the filter or
/// the dispatcher.
pub fn classify(n: RawNotification) -> (r: Option<ChangeEvent>)
    ensures
        r == classify_spec(n),
        r matches Some(event) ==> event.wf(),
{
    match n {
        RawNotification::Create(path) => Some(ChangeEvent {
            kind: ChangeKind::Created,
            path,
            origin_path: None,
        }),
        RawNotification::NoticeWrite(path) => Some(ChangeEvent {
            kind: ChangeKind::Modified,
            path,
            origin_path: None,
        }),
        RawNotification::Write(path) => Some(ChangeEvent {
            kind: ChangeKind::Modified,
            path,
            origin_path: None,
        }),
        RawNotification::Chmod(path) => Some(ChangeEvent {
            kind: ChangeKind::Modified,
            path,
            origin_path: None,
        }),
        RawNotification::NoticeRemove(path) => Some(ChangeEvent {
            kind: ChangeKind::Removed,
            path,
            origin_path: None,
        }),
        RawNotification::Remove(path) => Some(ChangeEvent {
            kind: ChangeKind::Removed,
            path,
            origin_path: None,
        }),
        RawNotification::Rename(origin, path) => Some(ChangeEvent {
            kind: ChangeKind::Renamed,
            path,
            origin_path: Some(origin),
        }),
        _ => None,
    }
}

} // verus!
