//! Which filesystem events ask for the menu to be rebuilt.
use vstd::prelude::*;
use crate::text::same_text;

verus! {

/// The kind of a filesystem event, as far as the decision needs it.
#[derive(Clone, Copy, Debug, PartialEq, Eq)]
pub enum ChangeKind {
    /// Something was created.
    Create,
    /// Something was modified.
    Modify,
    /// Any other event: an access, a removal, or one of no known kind.
    Other,
}

/// A message from the watcher's channel.
#[derive(Clone, Debug, PartialEq, Eq)]
pub enum WatchMessage {
    /// An event, with the final component of each path it concerns (`None`
    /// where a path has none, or none that is valid Unicode).
    Change { kind: ChangeKind, names: Vec<Option<String>> },
    /// The watcher reported an error.
    Failure,
    /// The channel was closed.
    Closed,
}

/// What to do with a message from the watcher.
#[derive(Clone, Copy, Debug, PartialEq, Eq)]
pub enum WatchAction {
    /// Rebuild the menu from a fresh snapshot.
    Reconcile,
    /// Nothing.
    Ignore,
    /// Report the watcher's error and go on.
    Report,
    /// End the watch.
    Stop,
}

/// The files whose change may alter the snapshot: the configuration, the
/// usage records, and the accounts directory.
pub open spec fn is_watched_name(name: Seq<char>) -> bool {
    name == "config.json"@ || name == "usage_cache.json"@ || name == "accounts"@
}

/// Whether some path of an event ends in a watched name.
pub open spec fn any_watched(names: Seq<Option<String>>) -> bool {
    exists|i: int| 0 <= i < names.len() && (#[trigger] names[i] matches Some(n) && is_watched_name(n@))
}

/// An event asks for a rebuild when it creates or modifies a watched file.
pub open spec fn update_wanted(kind: ChangeKind, names: Seq<Option<String>>) -> bool {
    (kind is Create || kind is Modify) && any_watched(names)
}

/// Whether `name` is one of the watched file names.
pub fn is_watched_file(name: &str) -> (r: bool)
    ensures
        r == is_watched_name(name@),
{
    same_text(name, "config.json") || same_text(name, "usage_cache.json") || same_text(
        name,
        "accounts",
    )
}

/// Whether an event of `kind` on paths ending in `names` asks for a rebuild:
/// it creates or modifies something, and one of its paths ends in a watched name.
pub fn should_update(kind: ChangeKind, names: &Vec<Option<String>>) -> (r: bool)
    ensures
        r == update_wanted(kind, names@),
{
    let creates_or_modifies = match kind {
        ChangeKind::Create => true,
        ChangeKind::Modify => true,
        ChangeKind::Other => false,
    };
    if !creates_or_modifies {
        return false;
    }
    let mut i: usize = 0;
    while i < names.len()
        invariant
            i <= names.len(),
            kind is Create || kind is Modify,
            forall|k: int| 0 <= k < i ==> !(#[trigger] names@[k] matches Some(n) && is_watched_name(n@)),
        decreases names.len() - i,
    {
        match &names[i] {
            Some(n) => {
                if is_watched_file(n.as_str()) {
                    assert(names@[i as int] matches Some(m) && is_watched_name(m@));
                    return true;
                }
            },
            None => {},
        }
        i = i + 1;
    }
    false
}

/// Decides what a message from the watcher calls for: a rebuild for an event
/// that asks for one, nothing for any other event, a report for an error, and
/// the end of the watch when the channel is closed.
pub fn next_watch_action(m: &WatchMessage) -> (r: WatchAction)
    ensures
        m matches WatchMessage::Change { kind, names } ==> r == (if update_wanted(*kind, names@) {
            WatchAction::Reconcile
        } else {
            WatchAction::Ignore
        }),
        m is Failure ==> r == WatchAction::Report,
        m is Closed ==> r == WatchAction::Stop,
{
    match m {
        WatchMessage::Change { kind, names } => {
            if should_update(*kind, names) {
                WatchAction::Reconcile
            } else {
                WatchAction::Ignore
            }
        },
        WatchMessage::Failure => WatchAction::Report,
        WatchMessage::Closed => WatchAction::Stop,
    }
}

/// An event whose paths all end in names other than the watched ones never
/// asks for a rebuild, whatever its kind.
pub proof fn lemma_unrelated_event_ignored(kind: ChangeKind, names: Seq<Option<String>>)
    requires
        forall|i: int|
            0 <= i < names.len() ==> (#[trigger] names[i] matches Some(n) ==> !is_watched_name(n@)),
    ensures
        !update_wanted(kind, names),
{
}

} // verus!
