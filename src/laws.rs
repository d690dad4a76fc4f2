use vstd::prelude::*;

use crate::command::{
    active_after, completed_after, entries_of, outcome_of, writes_active, writes_completed,
    Command, Outcome,
};
use crate::store::{tasks_of, FileState};
use crate::task::{has_named, named, only_named, without_named, Task};

verus! {

broadcast use vstd::seq_lib::group_filter_ensures;

/// How many tasks of `s` carry the name `name`.
pub open spec fn count_named(s: Seq<Task>, name: Seq<char>) -> nat {
    only_named(s, name).len()
}

/// No task carries the name exactly when none is picked out by it.
pub proof fn lemma_only_named_empty(s: Seq<Task>, name: Seq<char>)
    ensures
        only_named(s, name).len() == 0 <==> !has_named(s, name),
    decreases s.len(),
{
    reveal(Seq::filter);
    if s.len() > 0 {
        let p = s.drop_last();
        lemma_only_named_empty(p, name);
        if has_named(p, name) {
            let j = choose|j: int| 0 <= j < p.len() && named(#[trigger] p[j], name);
            assert(s[j] == p[j]);
        }
        if has_named(s, name) && !named(s.last(), name) {
            let j = choose|j: int| 0 <= j < s.len() && named(#[trigger] s[j], name);
            assert(p[j] == s[j]);
        }
        if named(s.last(), name) {
            assert(named(s[s.len() - 1], name));
        }
    }
}

/// Splitting a collection by a name loses and adds no task.
pub proof fn lemma_split_len(s: Seq<Task>, name: Seq<char>)
    ensures
        without_named(s, name).len() + only_named(s, name).len() == s.len(),
    decreases s.len(),
{
    reveal(Seq::filter);
    if s.len() > 0 {
        lemma_split_len(s.drop_last(), name);
    }
}

/// Picking out the tasks named `name` twice picks out the same tasks.
pub proof fn lemma_only_named_twice(s: Seq<Task>, name: Seq<char>)
    ensures
        only_named(only_named(s, name), name) == only_named(s, name),
    decreases s.len(),
{
    reveal(Seq::filter);
    if s.len() > 0 {
        let p = s.drop_last();
        lemma_only_named_twice(p, name);
        if named(s.last(), name) {
            let f = only_named(p, name).push(s.last());
            assert(f.drop_last() == only_named(p, name));
        }
    }
}

/// Loading a file that holds a collection gives that collection, task for
/// task and in order, so writing the loaded collection back writes what was
/// read.
pub proof fn load_keeps_parsed_collection(v: Vec<Task>)
    ensures
        tasks_of(FileState::Parsed(v)) == v@,
{
}

/// Listing a collection changes neither collection and writes neither file.
pub proof fn listing_changes_nothing(c: Command, active: Seq<Task>, completed: Seq<Task>)
    requires
        c is ListActive || c is ListCompleted,
    ensures
        active_after(c, active) == active,
        completed_after(c, active, completed) == completed,
        !writes_active(c, active),
        !writes_completed(c, active),
{
}

/// Completing a task that the active collection holds once moves it: the
/// active collection no longer holds a task of that name, the completed
/// collection holds one more, and no task is lost or duplicated.
pub proof fn completing_moves_task(active: Seq<Task>, completed: Seq<Task>, name: String)
    requires
        count_named(active, name@) == 1,
    ensures
        ({
            let c = Command::Complete { name };
            let a = active_after(c, active);
            let d = completed_after(c, active, completed);
            &&& !has_named(a, name@)
            &&& count_named(d, name@) == count_named(completed, name@) + 1
            &&& a.len() + d.len() == active.len() + completed.len()
        }),
{
    lemma_only_named_empty(active, name@);
    let a = without_named(active, name@);
    if has_named(a, name@) {
        let j = choose|j: int| 0 <= j < a.len() && named(#[trigger] a[j], name@);
        assert(!named(a[j], name@));
    }
    let moved = only_named(active, name@);
    Seq::filter_distributes_over_add(completed, moved, |t: Task| named(t, name@));
    lemma_only_named_twice(active, name@);
    lemma_split_len(active, name@);
}

/// Renaming a task that the active collection does not hold changes nothing,
/// writes no file, and reports that the task was not found.
pub proof fn renaming_missing_task_changes_nothing(
    active: Seq<Task>,
    completed: Seq<Task>,
    name: String,
    new_name: String,
)
    requires
        !has_named(active, name@),
    ensures
        ({
            let c = Command::Rename { name, new_name };
            &&& active_after(c, active) == active
            &&& completed_after(c, active, completed) == completed
            &&& !writes_active(c, active)
            &&& !writes_completed(c, active)
            &&& outcome_of(c, active) == Outcome::NotFound
        }),
{
}

/// A missing file stands for the empty collection, whose listing is empty.
pub proof fn missing_file_lists_nothing(completed: Seq<Task>)
    ensures
        tasks_of(FileState::Absent).len() == 0,
        entries_of(Command::ListActive, tasks_of(FileState::Absent), completed).len() == 0,
{
}

/// A file that does not hold a collection stands for the empty collection.
pub proof fn malformed_file_loads_empty()
    ensures
        tasks_of(FileState::Malformed) == Seq::<Task>::empty(),
{
}

} // verus!
