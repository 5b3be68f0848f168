//! Watching sources: what to do when files change.

use vstd::prelude::*;
use vstd::string::*;

verus! {

/// What happened to a file.
#[derive(Debug, Clone, Copy, PartialEq, Eq, Structural)]
pub enum ChangeKind {
    Create,
    Modify,
    Remove,
    Other,
}

/// A change of one file, with whether the file is one of the sources.
#[derive(Debug, PartialEq)]
pub struct Change {
    pub kind: ChangeKind,
    pub path: String,
    pub is_source: bool,
}

/// What the watcher does next.
#[derive(Debug, PartialEq)]
pub enum WatchAction {
    /// Nothing: wait for the next changes.
    Skip,
    /// Read these files again and write the style sheet.
    Regenerate(Vec<String>),
}

/// A change that may bring new tokens: a source that was created or
/// modified.
pub open spec fn is_relevant(c: Change) -> bool {
    c.is_source && (c.kind == ChangeKind::Create || c.kind == ChangeKind::Modify)
}

/// The paths of the relevant changes, each once, in the order in which
/// they first occur.
pub open spec fn changed_paths(changes: Seq<Change>) -> Seq<Seq<char>>
    decreases changes.len(),
{
    if changes.len() == 0 {
        Seq::empty()
    } else {
        let front = changed_paths(changes.drop_last());
        if is_relevant(changes.last()) && !front.contains(changes.last().path@) {
            front.push(changes.last().path@)
        } else {
            front
        }
    }
}

/// The content of an action.
pub open spec fn action_paths(a: WatchAction) -> Seq<Seq<char>> {
    match a {
        WatchAction::Skip => Seq::empty(),
        WatchAction::Regenerate(paths) => crate::builder::string_texts(paths@),
    }
}

/// Whether a path is among the paths.
fn has_path(paths: &Vec<String>, path: &String) -> (r: bool)
    ensures
        r == crate::builder::string_texts(paths@).contains(path@),
{
    let mut i: usize = 0;
    while i < paths.len()
        invariant
            i <= paths@.len(),
            forall|j: int| 0 <= j < i ==> (#[trigger] paths@[j])@ != path@,
        decreases paths@.len() - i,
    {
        if paths[i] == *path {
            assert(crate::builder::string_texts(paths@)[i as int] == path@);
            return true;
        }
        i += 1;
    }
    false
}

/// Decides what to do about a set of changes: if a source was created or
/// modified, the changed sources are read again; otherwise nothing is
/// done.
pub fn on_changes(changes: &Vec<Change>) -> (action: WatchAction)
    ensures
        action_paths(action) == changed_paths(changes@),
        action is Skip <==> changed_paths(changes@).len() == 0,
{
    let mut paths: Vec<String> = Vec::new();
    let mut i: usize = 0;
    proof {
        assert(changes@.take(0) =~= Seq::<Change>::empty());
        assert(crate::builder::string_texts(paths@) =~= changed_paths(changes@.take(0)));
    }
    while i < changes.len()
        invariant
            i <= changes@.len(),
            crate::builder::string_texts(paths@) == changed_paths(changes@.take(i as int)),
        decreases changes@.len() - i,
    {
        proof {
            assert(changes@.take(i + 1).drop_last() =~= changes@.take(i as int));
            assert(changes@.take(i + 1).last() == changes@[i as int]);
        }
        let c = &changes[i];
        let relevant = c.is_source && match c.kind {
            ChangeKind::Create => true,
            ChangeKind::Modify => true,
            _ => false,
        };
        if relevant && !has_path(&paths, &c.path) {
            let ghost before = crate::builder::string_texts(paths@);
            let p = c.path.clone();
            paths.push(p);
            assert(crate::builder::string_texts(paths@) =~= before.push(p@));
        }
        i += 1;
    }
    proof {
        assert(changes@.take(i as int) =~= changes@);
    }
    if paths.len() == 0 {
        WatchAction::Skip
    } else {
        WatchAction::Regenerate(paths)
    }
}

} // verus!
