use vstd::prelude::*;

use crate::task::Task;

verus! {

/// What was found where a collection is kept.
#[derive(Debug)]
pub enum FileState {
    /// There is no file.
    Absent,
    /// There is a file, but it does not hold a collection of tasks.
    Malformed,
    /// The file holds this collection.
    Parsed(Vec<Task>),
}

/// A collection as loaded, and whether an empty file must be created in
/// place of a missing one.
#[derive(Debug)]
pub struct Loaded {
    pub tasks: Vec<Task>,
    pub create_file: bool,
}

/// The collection that a file in state `f` stands for: a missing or
/// malformed file stands for the empty collection.
pub open spec fn tasks_of(f: FileState) -> Seq<Task> {
    match f {
        FileState::Parsed(v) => v@,
        _ => Seq::empty(),
    }
}

/// Loads a collection from what was found in its file. A missing file is
/// replaced by an empty one; a malformed file is read as the empty collection
/// and left as it is.
pub fn load_collection(f: FileState) -> (r: Loaded)
    ensures
        r.tasks@ == tasks_of(f),
        r.create_file == (f is Absent),
{
    match f {
        FileState::Absent => Loaded { tasks: Vec::new(), create_file: true },
        FileState::Malformed => Loaded { tasks: Vec::new(), create_file: false },
        FileState::Parsed(tasks) => Loaded { tasks, create_file: false },
    }
}

} // verus!
