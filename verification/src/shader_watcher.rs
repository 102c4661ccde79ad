//! The filter between the file system's change events and the queue of
//! shader changes that the render loop drains.

use vstd::prelude::*;

verus! {

/// How a file was modified.
#[derive(Clone, Copy, Debug, PartialEq, Eq, Structural)]
pub enum ModifyKind {
    /// Modified, in a way that is not known.
    Any,
    /// The file's content changed.
    Data,
    /// Only the file's metadata changed.
    Metadata,
    /// The file was renamed.
    Name,
    Other,
}

/// What happened to a watched file.
#[derive(Clone, Copy, Debug, PartialEq, Eq, Structural)]
pub enum EventKind {
    Any,
    Access,
    Create,
    Modify(ModifyKind),
    Remove,
    Other,
}

impl EventKind {
    /// Whether an event of this kind tells of changed content. Nothing else
    /// ever reaches the queue.
    pub open spec fn qualifies(self) -> bool {
        self == EventKind::Modify(ModifyKind::Data)
    }

    /// Whether an event of this kind tells of changed content.
    pub fn is_content_change(&self) -> (yes: bool)
        ensures
            yes == self.qualifies(),
    {
        match self {
            EventKind::Modify(ModifyKind::Data) => true,
            _ => false,
        }
    }
}

/// The watch on the shader sources: one path, watched without descending
/// into directories below it.
pub struct ShaderWatcher {
    path: String,
}

impl ShaderWatcher {
    /// The watched path.
    pub closed spec fn watched(self) -> Seq<char> {
        self.path@
    }

    /// A watch on `path`.
    pub fn new(path: String) -> (watcher: ShaderWatcher)
        ensures
            watcher.watched() == path@,
    {
        ShaderWatcher { path }
    }

    /// The watched path.
    pub fn path(&self) -> (path: &String)
        ensures
            path@ == self.watched(),
    {
        &self.path
    }

    /// Whether the watch descends into directories below the path. It never
    /// does.
    pub fn recursive(&self) -> (yes: bool)
        ensures
            !yes,
    {
        false
    }

    /// The paths to put on the queue for one event: all of the event's
    /// paths, in their order, if it tells of changed content, and none
    /// otherwise.
    pub fn paths_to_publish<T>(&self, kind: &EventKind, paths: Vec<T>) -> (published: Vec<T>)
        ensures
            kind.qualifies() ==> published@ == paths@,
            !kind.qualifies() ==> published@.len() == 0,
    {
        if kind.is_content_change() {
            paths
        } else {
            Vec::new()
        }
    }
}

} // verus!
