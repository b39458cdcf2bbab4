//! The shape of raw filesystem change notifications, and which of them
//! carry a path worth classifying.
//!
//! The watch subsystem delivers debounced notifications of these kinds;
//! they are transient — classified immediately, never stored. Advisory
//! "notice" writes, rescan requests and watcher errors carry nothing the
//! classifier should act on.

use vstd::prelude::*;

verus! {

/// One debounced filesystem notification, as the watch subsystem hands it
/// over. A rename carries the old and the new path.
pub enum WatchEvent {
    NoticeWrite(String),
    NoticeRemove(String),
    Create(String),
    Write(String),
    Chmod(String),
    Remove(String),
    Rename(String, String),
    Rescan,
    Error,
}

/// The path a notification is acted on under, if any: a rename is acted
/// on under its old path; advisory write notices, rescans and errors are
/// not acted on at all.
pub open spec fn spec_event_path(e: WatchEvent) -> Option<Seq<char>> {
    match e {
        WatchEvent::NoticeRemove(p) => Some(p@),
        WatchEvent::Create(p) => Some(p@),
        WatchEvent::Write(p) => Some(p@),
        WatchEvent::Chmod(p) => Some(p@),
        WatchEvent::Remove(p) => Some(p@),
        WatchEvent::Rename(p, _) => Some(p@),
        WatchEvent::NoticeWrite(_) => None,
        WatchEvent::Rescan => None,
        WatchEvent::Error => None,
    }
}

/// The path to classify for one notification, or nothing for the kinds
/// that are skipped.
pub fn event_path(e: &WatchEvent) -> (r: Option<&String>)
    ensures
        r matches Some(p) ==> spec_event_path(*e) == Some(p@),
        r is None ==> spec_event_path(*e) is None,
{
    match e {
        WatchEvent::NoticeRemove(p) => Some(p),
        WatchEvent::Create(p) => Some(p),
        WatchEvent::Write(p) => Some(p),
        WatchEvent::Chmod(p) => Some(p),
        WatchEvent::Remove(p) => Some(p),
        WatchEvent::Rename(p, _) => Some(p),
        WatchEvent::NoticeWrite(_) => None,
        WatchEvent::Rescan => None,
        WatchEvent::Error => None,
    }
}

} // verus!
