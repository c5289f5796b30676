use vstd::prelude::*;

verus! {

/// The kind of a raw filesystem notification, as delivered by the watch
/// mechanism after debouncing.
#[derive(Clone, Copy, Debug, PartialEq, Eq, Structural)]
pub enum EventKind {
    Created,
    Written,
    Removed,
    Renamed,
    Other,
}

/// A raw notification: a kind, the absolute paths it carries, and whether
/// the (single) path names a directory.  Produced by the watch mechanism,
/// consumed exactly once by `classify`.
pub struct RawEvent {
    pub kind: EventKind,
    pub paths: Vec<String>,
    pub is_dir: bool,
}

/// The mathematical shape of a raw notification.
pub struct RawEventView {
    pub kind: EventKind,
    pub paths: Seq<Seq<char>>,
    pub is_dir: bool,
}

impl View for RawEvent {
    type V = RawEventView;

    open spec fn view(&self) -> RawEventView {
        RawEventView { kind: self.kind, paths: self.paths.deep_view(), is_dir: self.is_dir }
    }
}

/// A notification survives filtering only if it reports a file (not a
/// directory) that was created or written, and carries exactly one path.
pub open spec fn is_relevant(e: RawEventView) -> bool {
    &&& (e.kind == EventKind::Created || e.kind == EventKind::Written)
    &&& e.paths.len() == 1
    &&& !e.is_dir
}

/// The verdict of the event filter.
#[derive(Debug)]
pub enum Classification {
    Relevant(String),
    Ignored,
}

/// Classifies a raw notification: only single-path file creations and
/// writes are mirrored; removals, renames and everything else, as well as
/// directory-level events, are ignored (the destination only grows or
/// updates, it never shrinks).
pub fn classify(e: &RawEvent) -> (c: Classification)
    ensures
        is_relevant(e@) ==> (c matches Classification::Relevant(p) && p@ == e@.paths[0]),
        !is_relevant(e@) ==> c is Ignored,
        e@.kind != EventKind::Created && e@.kind != EventKind::Written ==> c is Ignored,
        e@.is_dir ==> c is Ignored,
{
    match e.kind {
        EventKind::Created | EventKind::Written => {
            if e.paths.len() == 1 && !e.is_dir {
                Classification::Relevant(e.paths[0].clone())
            } else {
                Classification::Ignored
            }
        },
        _ => Classification::Ignored,
    }
}

} // verus!
