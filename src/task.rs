use vstd::prelude::*;

verus! {

/// A task: its name, which identifies it within a collection, and a
/// free-form completion time.
#[derive(Debug, Clone, PartialEq, Eq)]
pub struct Task {
    pub name: String,
    pub completion_time: String,
}

/// One line of a listing: a task's 1-based position in its collection, its
/// name and its completion time.
#[derive(Debug, Clone, PartialEq, Eq)]
pub struct ListEntry {
    pub position: usize,
    pub name: String,
    pub completion_time: String,
}

/// The listing of a collection: one entry per task, in collection order,
/// numbered from 1.
pub open spec fn listing(s: Seq<Task>) -> Seq<ListEntry> {
    Seq::new(
        s.len(),
        |i: int|
            ListEntry {
                position: (i + 1) as usize,
                name: s[i].name,
                completion_time: s[i].completion_time,
            },
    )
}

/// Whether `t` carries the name `name`.
pub open spec fn named(t: Task, name: Seq<char>) -> bool {
    t.name@ == name
}

/// Whether some task of `s` carries the name `name`.
pub open spec fn has_named(s: Seq<Task>, name: Seq<char>) -> bool {
    exists|i: int| 0 <= i < s.len() && named(#[trigger] s[i], name)
}

/// Whether `i` is the position of the first task of `s` named `name`.
pub open spec fn is_first_named(s: Seq<Task>, name: Seq<char>, i: int) -> bool {
    &&& 0 <= i < s.len()
    &&& named(s[i], name)
    &&& forall|j: int| 0 <= j < i ==> !named(#[trigger] s[j], name)
}

/// The position of the first task of `s` named `name` (meaningful only when
/// `has_named(s, name)`).
pub open spec fn first_named(s: Seq<Task>, name: Seq<char>) -> int {
    choose|i: int| is_first_named(s, name, i)
}

/// The tasks of `s` that carry the name `name`, in their order.
pub open spec fn only_named(s: Seq<Task>, name: Seq<char>) -> Seq<Task> {
    s.filter(|t: Task| named(t, name))
}

/// The tasks of `s` that do not carry the name `name`, in their order.
pub open spec fn without_named(s: Seq<Task>, name: Seq<char>) -> Seq<Task> {
    s.filter(|t: Task| !named(t, name))
}

/// `s` with the first task named `name` given the name `new_name`; `s` itself
/// where no task has that name.
pub open spec fn renamed(s: Seq<Task>, name: Seq<char>, new_name: String) -> Seq<Task> {
    if has_named(s, name) {
        let i = first_named(s, name);
        s.update(i, Task { name: new_name, completion_time: s[i].completion_time })
    } else {
        s
    }
}

/// `s` with the first task named `name` given the completion time `time`; `s`
/// itself where no task has that name.
pub open spec fn rescheduled(s: Seq<Task>, name: Seq<char>, time: String) -> Seq<Task> {
    if has_named(s, name) {
        let i = first_named(s, name);
        s.update(i, Task { name: s[i].name, completion_time: time })
    } else {
        s
    }
}

/// A first match exists whenever some task carries the name, and it is unique.
proof fn lemma_first_named(s: Seq<Task>, name: Seq<char>, i: int)
    requires
        is_first_named(s, name, i),
    ensures
        has_named(s, name),
        first_named(s, name) == i,
{
    let k = first_named(s, name);
    assert(is_first_named(s, name, k));
    if k < i {
        assert(!named(s[k], name));
    } else if i < k {
        assert(!named(s[i], name));
    }
}

/// Position of the first task named `name`, if any.
fn find_first(tasks: &Vec<Task>, name: &String) -> (r: Option<usize>)
    ensures
        r is None <==> !has_named(tasks@, name@),
        r matches Some(i) ==> is_first_named(tasks@, name@, i as int) && first_named(
            tasks@,
            name@,
        ) == i,
{
    let mut i: usize = 0;
    while i < tasks.len()
        invariant
            0 <= i <= tasks.len(),
            forall|j: int| 0 <= j < i ==> !named(#[trigger] tasks@[j], name@),
        decreases tasks.len() - i,
    {
        if tasks[i].name == *name {
            proof {
                lemma_first_named(tasks@, name@, i as int);
            }
            return Some(i);
        }
        i = i + 1;
    }
    None
}

/// Gives the first task named `name` the name `new_name`. Returns whether
/// such a task was found; where none was, the collection is unchanged. Later
/// tasks with the same name are left as they are.
pub fn update_task_name(tasks: &mut Vec<Task>, name: &String, new_name: String) -> (found: bool)
    ensures
        found == has_named(old(tasks)@, name@),
        final(tasks)@ == renamed(old(tasks)@, name@, new_name),
{
    match find_first(tasks, name) {
        Some(i) => {
            tasks[i].name = new_name;
            true
        },
        None => false,
    }
}

/// Gives the first task named `name` the completion time `time`. Returns
/// whether such a task was found; where none was, the collection is
/// unchanged. Later tasks with the same name are left as they are.
pub fn update_task_completion_time(tasks: &mut Vec<Task>, name: &String, time: String) -> (found:
    bool)
    ensures
        found == has_named(old(tasks)@, name@),
        final(tasks)@ == rescheduled(old(tasks)@, name@, time),
{
    match find_first(tasks, name) {
        Some(i) => {
            tasks[i].completion_time = time;
            true
        },
        None => false,
    }
}

/// Splits the collection into the tasks not named `name` and those named so,
/// each part in collection order.
fn split_named(tasks: &Vec<Task>, name: &String) -> (r: (Vec<Task>, Vec<Task>))
    ensures
        r.0@ == without_named(tasks@, name@),
        r.1@ == only_named(tasks@, name@),
        r.1@.len() == 0 <==> !has_named(tasks@, name@),
{
    let mut kept: Vec<Task> = Vec::new();
    let mut moved: Vec<Task> = Vec::new();
    let mut i: usize = 0;
    while i < tasks.len()
        invariant
            0 <= i <= tasks.len(),
            kept@ == without_named(tasks@.subrange(0, i as int), name@),
            moved@ == only_named(tasks@.subrange(0, i as int), name@),
            moved@.len() == 0 <==> !has_named(tasks@.subrange(0, i as int), name@),
        decreases tasks.len() - i,
    {
        let ghost prefix = tasks@.subrange(0, i as int);
        let ghost next = tasks@.subrange(0, i + 1);
        assert(next.drop_last() == prefix);
        assert(next.last() == tasks@[i as int]);
        let t = Task { name: tasks[i].name.clone(), completion_time: tasks[i].completion_time.clone() };
        proof {
            reveal(Seq::filter);
        }
        if t.name == *name {
            moved.push(t);
            assert(named(next[i as int], name@));
        } else {
            kept.push(t);
            assert(has_named(next, name@) ==> has_named(prefix, name@)) by {
                if has_named(next, name@) {
                    let j = choose|j: int| 0 <= j < next.len() && named(#[trigger] next[j], name@);
                    assert(prefix[j] == next[j]);
                }
            }
            assert(has_named(prefix, name@) ==> has_named(next, name@)) by {
                if has_named(prefix, name@) {
                    let j = choose|j: int| 0 <= j < prefix.len() && named(#[trigger] prefix[j], name@);
                    assert(prefix[j] == next[j]);
                }
            }
        }
        i = i + 1;
    }
    assert(tasks@.subrange(0, i as int) == tasks@);
    (kept, moved)
}

/// Removes every task named `name`; the others keep their order. A name that
/// no task carries leaves the collection as it was.
pub fn remove_task(tasks: &mut Vec<Task>, name: &String)
    ensures
        final(tasks)@ == without_named(old(tasks)@, name@),
{
    let (kept, _moved) = split_named(tasks, name);
    *tasks = kept;
}

/// Moves every task named `name` from `active` to the end of `completed`,
/// keeping their relative order; the tasks left in `active` keep theirs.
/// Returns whether any task was moved; where none was, both collections are
/// unchanged.
pub fn complete_task(active: &mut Vec<Task>, completed: &mut Vec<Task>, name: &String) -> (found:
    bool)
    ensures
        found == has_named(old(active)@, name@),
        found ==> final(active)@ == without_named(old(active)@, name@) && final(completed)@ == old(
            completed,
        )@ + only_named(old(active)@, name@),
        !found ==> final(active)@ == old(active)@ && final(completed)@ == old(completed)@,
{
    let (kept, mut moved) = split_named(active, name);
    if moved.len() == 0 {
        return false;
    }
    *active = kept;
    completed.append(&mut moved);
    true
}

/// Numbers the tasks of a collection from 1, in collection order.
fn numbered(tasks: &Vec<Task>) -> (r: Vec<ListEntry>)
    ensures
        r@ == listing(tasks@),
{
    let mut entries: Vec<ListEntry> = Vec::new();
    let mut i: usize = 0;
    while i < tasks.len()
        invariant
            0 <= i <= tasks.len(),
            entries@ == listing(tasks@.subrange(0, i as int)),
        decreases tasks.len() - i,
    {
        entries.push(
            ListEntry {
                position: i + 1,
                name: tasks[i].name.clone(),
                completion_time: tasks[i].completion_time.clone(),
            },
        );
        i = i + 1;
        assert(entries@ =~= listing(tasks@.subrange(0, i as int)));
    }
    assert(tasks@.subrange(0, i as int) == tasks@);
    entries
}

/// The listing of the active collection.
pub fn view_tasks(active: &Vec<Task>) -> (r: Vec<ListEntry>)
    ensures
        r@ == listing(active@),
{
    numbered(active)
}

/// The listing of the completed collection.
pub fn view_concluded_tasks(completed: &Vec<Task>) -> (r: Vec<ListEntry>)
    ensures
        r@ == listing(completed@),
{
    numbered(completed)
}

/// Appends a task made of `name` and `completion_time` to the collection.
pub fn create_new_task(tasks: &mut Vec<Task>, name: String, completion_time: String)
    ensures
        final(tasks)@ == old(tasks)@.push(Task { name, completion_time }),
{
    tasks.push(Task { name, completion_time });
}

} // verus!
