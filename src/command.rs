use vstd::prelude::*;

use crate::task::{
    complete_task, create_new_task, listing, only_named, remove_task, renamed, rescheduled,
    update_task_completion_time, update_task_name, view_concluded_tasks, view_tasks,
    without_named, has_named, ListEntry, Task,
};

verus! {

/// The options of one invocation, as the command line gave them.
#[derive(Debug, Clone, Default)]
pub struct Args {
    /// A new task: its name, then its completion time.
    pub add_task: Option<Vec<String>>,
    /// The name of the tasks to remove.
    pub remove_task: Option<String>,
    /// A task's current name, then its new name.
    pub update_name: Option<Vec<String>>,
    /// A task's name, then its new completion time.
    pub update_concluded_time: Option<Vec<String>>,
    /// Whether to list the active tasks.
    pub view_tasks: Option<bool>,
    /// The name of the tasks to mark as completed.
    pub concluded_task: Option<String>,
    /// Whether to list the completed tasks.
    pub view_concluded_tasks: Option<bool>,
}

/// One operation on the two collections.
#[derive(Debug, Clone, PartialEq, Eq)]
pub enum Command {
    Add { name: String, completion_time: String },
    Remove { name: String },
    Rename { name: String, new_name: String },
    Reschedule { name: String, completion_time: String },
    Complete { name: String },
    ListActive,
    ListCompleted,
}

/// Why the options name no operation that can be carried out.
#[derive(Debug, Clone, Copy, PartialEq, Eq, Structural)]
pub enum CommandError {
    /// Adding takes exactly two values.
    AddNeedsTwoValues,
    /// Renaming takes exactly two values.
    RenameNeedsTwoValues,
    /// Rescheduling takes exactly two values.
    RescheduleNeedsTwoValues,
    /// No option names an operation.
    NoCommand,
}

/// The operation that the options name. The options are looked at in a fixed
/// order (add, remove, rename, reschedule, complete, list active, list
/// completed) and the first one present decides; a listing counts only when
/// its flag is set to true. An option that takes two values and was given
/// another number of them is an error.
pub open spec fn command_of(a: Args) -> Result<Command, CommandError> {
    if a.add_task is Some {
        let v = a.add_task->0@;
        if v.len() == 2 {
            Ok(Command::Add { name: v[0], completion_time: v[1] })
        } else {
            Err(CommandError::AddNeedsTwoValues)
        }
    } else if a.remove_task is Some {
        Ok(Command::Remove { name: a.remove_task->0 })
    } else if a.update_name is Some {
        let v = a.update_name->0@;
        if v.len() == 2 {
            Ok(Command::Rename { name: v[0], new_name: v[1] })
        } else {
            Err(CommandError::RenameNeedsTwoValues)
        }
    } else if a.update_concluded_time is Some {
        let v = a.update_concluded_time->0@;
        if v.len() == 2 {
            Ok(Command::Reschedule { name: v[0], completion_time: v[1] })
        } else {
            Err(CommandError::RescheduleNeedsTwoValues)
        }
    } else if a.concluded_task is Some {
        Ok(Command::Complete { name: a.concluded_task->0 })
    } else if a.view_tasks == Some(true) {
        Ok(Command::ListActive)
    } else if a.view_concluded_tasks == Some(true) {
        Ok(Command::ListCompleted)
    } else {
        Err(CommandError::NoCommand)
    }
}

/// Both values of an option that must hold exactly two.
fn two_values(v: &Vec<String>) -> (r: Option<(String, String)>)
    ensures
        r is Some <==> v@.len() == 2,
        r matches Some(p) ==> p.0 == v@[0] && p.1 == v@[1],
{
    if v.len() == 2 {
        Some((v[0].clone(), v[1].clone()))
    } else {
        None
    }
}

/// Picks the operation that the options name; see `command_of`.
pub fn select_command(args: &Args) -> (r: Result<Command, CommandError>)
    ensures
        r == command_of(*args),
{
    if let Some(v) = &args.add_task {
        match two_values(v) {
            Some((name, completion_time)) => Ok(Command::Add { name, completion_time }),
            None => Err(CommandError::AddNeedsTwoValues),
        }
    } else if let Some(name) = &args.remove_task {
        Ok(Command::Remove { name: name.clone() })
    } else if let Some(v) = &args.update_name {
        match two_values(v) {
            Some((name, new_name)) => Ok(Command::Rename { name, new_name }),
            None => Err(CommandError::RenameNeedsTwoValues),
        }
    } else if let Some(v) = &args.update_concluded_time {
        match two_values(v) {
            Some((name, completion_time)) => Ok(Command::Reschedule { name, completion_time }),
            None => Err(CommandError::RescheduleNeedsTwoValues),
        }
    } else if let Some(name) = &args.concluded_task {
        Ok(Command::Complete { name: name.clone() })
    } else if args.view_tasks == Some(true) {
        Ok(Command::ListActive)
    } else if args.view_concluded_tasks == Some(true) {
        Ok(Command::ListCompleted)
    } else {
        Err(CommandError::NoCommand)
    }
}

/// Whether carrying out `c` needs the active collection.
pub open spec fn spec_reads_active(c: Command) -> bool {
    !(c is ListCompleted)
}

/// Whether carrying out `c` needs the completed collection.
pub open spec fn spec_reads_completed(c: Command) -> bool {
    c is Complete || c is ListCompleted
}

impl Command {
    /// Whether this command needs the active collection loaded; only listing
    /// the completed tasks does without it.
    pub fn reads_active(&self) -> (r: bool)
        ensures
            r == spec_reads_active(*self),
    {
        !matches!(self, Command::ListCompleted)
    }

    /// Whether this command needs the completed collection loaded: completing
    /// a task and listing the completed tasks do.
    pub fn reads_completed(&self) -> (r: bool)
        ensures
            r == spec_reads_completed(*self),
    {
        matches!(self, Command::Complete { .. } | Command::ListCompleted)
    }
}

/// What carrying out a command came to.
#[derive(Debug, Clone, Copy, PartialEq, Eq, Structural)]
pub enum Outcome {
    Added,
    Removed,
    Updated,
    Completed,
    /// No task carries the name that the command gave.
    NotFound,
    /// A listing was made; nothing changed.
    Listed,
}

/// The result of carrying out a command: its outcome, which collections must
/// be written back, and the listing it made (empty unless it lists).
#[derive(Debug)]
pub struct Report {
    pub outcome: Outcome,
    pub write_active: bool,
    pub write_completed: bool,
    pub entries: Vec<ListEntry>,
}

/// The active collection after carrying out `c` on `active`.
pub open spec fn active_after(c: Command, active: Seq<Task>) -> Seq<Task> {
    match c {
        Command::Add { name, completion_time } => active.push(Task { name, completion_time }),
        Command::Remove { name } => without_named(active, name@),
        Command::Rename { name, new_name } => renamed(active, name@, new_name),
        Command::Reschedule { name, completion_time } => rescheduled(
            active,
            name@,
            completion_time,
        ),
        Command::Complete { name } => if has_named(active, name@) {
            without_named(active, name@)
        } else {
            active
        },
        Command::ListActive => active,
        Command::ListCompleted => active,
    }
}

/// The completed collection after carrying out `c` on the two collections.
pub open spec fn completed_after(c: Command, active: Seq<Task>, completed: Seq<Task>) -> Seq<
    Task,
> {
    match c {
        Command::Complete { name } => if has_named(active, name@) {
            completed + only_named(active, name@)
        } else {
            completed
        },
        _ => completed,
    }
}

/// The outcome of carrying out `c` on `active`.
pub open spec fn outcome_of(c: Command, active: Seq<Task>) -> Outcome {
    match c {
        Command::Add { .. } => Outcome::Added,
        Command::Remove { .. } => Outcome::Removed,
        Command::Rename { name, .. } => if has_named(active, name@) {
            Outcome::Updated
        } else {
            Outcome::NotFound
        },
        Command::Reschedule { name, .. } => if has_named(active, name@) {
            Outcome::Updated
        } else {
            Outcome::NotFound
        },
        Command::Complete { name } => if has_named(active, name@) {
            Outcome::Completed
        } else {
            Outcome::NotFound
        },
        Command::ListActive => Outcome::Listed,
        Command::ListCompleted => Outcome::Listed,
    }
}

/// Whether the active collection is written back after `c`: after adding and
/// removing always, after renaming, rescheduling and completing only when a
/// task carried the name, after a listing never.
pub open spec fn writes_active(c: Command, active: Seq<Task>) -> bool {
    match outcome_of(c, active) {
        Outcome::NotFound => false,
        Outcome::Listed => false,
        _ => true,
    }
}

/// Whether the completed collection is written back after `c`: only when a
/// task was completed.
pub open spec fn writes_completed(c: Command, active: Seq<Task>) -> bool {
    outcome_of(c, active) == Outcome::Completed
}

/// The listing that `c` makes: that of the collection it lists, or none.
pub open spec fn entries_of(c: Command, active: Seq<Task>, completed: Seq<Task>) -> Seq<
    ListEntry,
> {
    match c {
        Command::ListActive => listing(active),
        Command::ListCompleted => listing(completed),
        _ => Seq::empty(),
    }
}

/// Carries out `cmd` on the two collections. The collections that the
/// command does not read (see `Command::reads_active` and
/// `Command::reads_completed`) are left as they are.
pub fn run_command(cmd: Command, active: &mut Vec<Task>, completed: &mut Vec<Task>) -> (r: Report)
    ensures
        final(active)@ == active_after(cmd, old(active)@),
        final(completed)@ == completed_after(cmd, old(active)@, old(completed)@),
        r.outcome == outcome_of(cmd, old(active)@),
        r.write_active == writes_active(cmd, old(active)@),
        r.write_completed == writes_completed(cmd, old(active)@),
        r.entries@ == entries_of(cmd, old(active)@, old(completed)@),
{
    let (outcome, write_active, write_completed, entries) = match cmd {
        Command::Add { name, completion_time } => {
            create_new_task(active, name, completion_time);
            (Outcome::Added, true, false, Vec::new())
        },
        Command::Remove { name } => {
            remove_task(active, &name);
            (Outcome::Removed, true, false, Vec::new())
        },
        Command::Rename { name, new_name } => {
            if update_task_name(active, &name, new_name) {
                (Outcome::Updated, true, false, Vec::new())
            } else {
                (Outcome::NotFound, false, false, Vec::new())
            }
        },
        Command::Reschedule { name, completion_time } => {
            if update_task_completion_time(active, &name, completion_time) {
                (Outcome::Updated, true, false, Vec::new())
            } else {
                (Outcome::NotFound, false, false, Vec::new())
            }
        },
        Command::Complete { name } => {
            if complete_task(active, completed, &name) {
                (Outcome::Completed, true, true, Vec::new())
            } else {
                (Outcome::NotFound, false, false, Vec::new())
            }
        },
        Command::ListActive => (Outcome::Listed, false, false, view_tasks(active)),
        Command::ListCompleted => (Outcome::Listed, false, false, view_concluded_tasks(completed)),
    };
    Report { outcome, write_active, write_completed, entries }
}

} // verus!
