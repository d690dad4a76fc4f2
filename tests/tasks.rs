use todo_list::command::{run_command, select_command, Args, Command, CommandError, Outcome};
use todo_list::store::{load_collection, FileState};
use todo_list::task::{
    complete_task, create_new_task, remove_task, update_task_completion_time, update_task_name,
    view_concluded_tasks, view_tasks, ListEntry, Task,
};

fn task(name: &str, time: &str) -> Task {
    Task { name: name.to_string(), completion_time: time.to_string() }
}

fn s(x: &str) -> String {
    x.to_string()
}

#[test]
fn create_then_list_gives_one_entry_at_position_one() {
    let mut active: Vec<Task> = Vec::new();
    create_new_task(&mut active, s("Buy milk"), s("2024-01-01"));
    let entries = view_tasks(&active);
    assert_eq!(
        entries,
        vec![ListEntry { position: 1, name: s("Buy milk"), completion_time: s("2024-01-01") }]
    );
}

#[test]
fn create_keeps_insertion_order_and_duplicates() {
    let mut active = vec![task("a", "1")];
    create_new_task(&mut active, s("b"), s("2"));
    create_new_task(&mut active, s("a"), s("3"));
    assert_eq!(active, vec![task("a", "1"), task("b", "2"), task("a", "3")]);
}

#[test]
fn listing_numbers_from_one_in_order() {
    let completed = vec![task("x", "t1"), task("y", "t2"), task("z", "t3")];
    let entries = view_concluded_tasks(&completed);
    assert_eq!(entries.len(), 3);
    for (i, e) in entries.iter().enumerate() {
        assert_eq!(e.position, i + 1);
        assert_eq!(e.name, completed[i].name);
        assert_eq!(e.completion_time, completed[i].completion_time);
    }
}

#[test]
fn remove_drops_every_task_of_that_name() {
    let mut active = vec![task("a", "1"), task("b", "2"), task("a", "3"), task("c", "4")];
    remove_task(&mut active, &s("a"));
    assert_eq!(active, vec![task("b", "2"), task("c", "4")]);
}

#[test]
fn remove_of_missing_name_changes_nothing() {
    let mut active = vec![task("a", "1"), task("b", "2")];
    remove_task(&mut active, &s("zzz"));
    assert_eq!(active, vec![task("a", "1"), task("b", "2")]);
}

#[test]
fn rename_changes_only_the_first_match() {
    let mut active = vec![task("b", "0"), task("a", "1"), task("a", "2")];
    assert!(update_task_name(&mut active, &s("a"), s("renamed")));
    assert_eq!(active, vec![task("b", "0"), task("renamed", "1"), task("a", "2")]);
}

#[test]
fn reschedule_changes_only_the_first_match() {
    let mut active = vec![task("a", "1"), task("a", "2")];
    assert!(update_task_completion_time(&mut active, &s("a"), s("later")));
    assert_eq!(active, vec![task("a", "later"), task("a", "2")]);
}

#[test]
fn reschedule_of_missing_name_reports_not_found() {
    let mut active = vec![task("a", "1")];
    assert!(!update_task_completion_time(&mut active, &s("b"), s("later")));
    assert_eq!(active, vec![task("a", "1")]);
}

#[test]
fn complete_moves_all_matches_in_order() {
    let mut active = vec![task("a", "1"), task("b", "2"), task("a", "3")];
    let mut completed = vec![task("old", "0")];
    assert!(complete_task(&mut active, &mut completed, &s("a")));
    assert_eq!(active, vec![task("b", "2")]);
    assert_eq!(completed, vec![task("old", "0"), task("a", "1"), task("a", "3")]);
}

#[test]
fn complete_of_missing_name_changes_nothing() {
    let mut active = vec![task("a", "1")];
    let mut completed = vec![task("c", "2")];
    assert!(!complete_task(&mut active, &mut completed, &s("x")));
    assert_eq!(active, vec![task("a", "1")]);
    assert_eq!(completed, vec![task("c", "2")]);
}

#[test]
fn completing_a_single_task_moves_it() {
    let mut active = vec![task("X", "1"), task("Y", "2")];
    let mut completed = vec![task("Z", "3")];
    let before = active.len() + completed.len();
    let report = run_command(Command::Complete { name: s("X") }, &mut active, &mut completed);
    assert_eq!(report.outcome, Outcome::Completed);
    assert!(report.write_active && report.write_completed);
    assert!(active.iter().all(|t| t.name != "X"));
    assert_eq!(completed.iter().filter(|t| t.name == "X").count(), 1);
    assert_eq!(active.len() + completed.len(), before);
}

#[test]
fn renaming_missing_task_reports_not_found_and_writes_nothing() {
    let mut active = vec![task("a", "1")];
    let mut completed = Vec::new();
    let report = run_command(
        Command::Rename { name: s("missing"), new_name: s("b") },
        &mut active,
        &mut completed,
    );
    assert_eq!(report.outcome, Outcome::NotFound);
    assert!(!report.write_active && !report.write_completed);
    assert_eq!(active, vec![task("a", "1")]);
}

#[test]
fn rename_through_command_writes_active_only() {
    let mut active = vec![task("a", "1")];
    let mut completed = Vec::new();
    let report =
        run_command(Command::Rename { name: s("a"), new_name: s("b") }, &mut active, &mut completed);
    assert_eq!(report.outcome, Outcome::Updated);
    assert!(report.write_active && !report.write_completed);
    assert_eq!(active, vec![task("b", "1")]);
}

#[test]
fn remove_through_command_always_writes() {
    let mut active = vec![task("a", "1")];
    let mut completed = Vec::new();
    let report = run_command(Command::Remove { name: s("q") }, &mut active, &mut completed);
    assert_eq!(report.outcome, Outcome::Removed);
    assert!(report.write_active && !report.write_completed);
}

#[test]
fn listings_change_nothing_and_write_nothing() {
    let mut active = vec![task("a", "1")];
    let mut completed = vec![task("b", "2"), task("c", "3")];
    let report = run_command(Command::ListActive, &mut active, &mut completed);
    assert_eq!(report.outcome, Outcome::Listed);
    assert!(!report.write_active && !report.write_completed);
    assert_eq!(report.entries.len(), 1);
    let report = run_command(Command::ListCompleted, &mut active, &mut completed);
    assert!(!report.write_active && !report.write_completed);
    assert_eq!(report.entries.len(), 2);
    assert_eq!(report.entries[1].position, 2);
    assert_eq!(active, vec![task("a", "1")]);
    assert_eq!(completed, vec![task("b", "2"), task("c", "3")]);
}

#[test]
fn missing_file_loads_empty_and_asks_for_a_file() {
    let loaded = load_collection(FileState::Absent);
    assert!(loaded.tasks.is_empty());
    assert!(loaded.create_file);
    let mut active = loaded.tasks;
    let mut completed = Vec::new();
    let report = run_command(Command::ListActive, &mut active, &mut completed);
    assert!(report.entries.is_empty());
}

#[test]
fn malformed_file_loads_empty() {
    let loaded = load_collection(FileState::Malformed);
    assert!(loaded.tasks.is_empty());
    assert!(!loaded.create_file);
}

#[test]
fn parsed_file_loads_unchanged() {
    let v = vec![task("a", "1"), task("b", "2")];
    let loaded = load_collection(FileState::Parsed(v.clone()));
    assert_eq!(loaded.tasks, v);
    assert!(!loaded.create_file);
}

#[test]
fn reads_follow_the_command() {
    assert!(Command::ListActive.reads_active());
    assert!(!Command::ListActive.reads_completed());
    assert!(!Command::ListCompleted.reads_active());
    assert!(Command::ListCompleted.reads_completed());
    assert!(Command::Complete { name: s("a") }.reads_active());
    assert!(Command::Complete { name: s("a") }.reads_completed());
    assert!(!Command::Remove { name: s("a") }.reads_completed());
}

#[test]
fn add_with_two_values_selects_add() {
    let args = Args { add_task: Some(vec![s("n"), s("t")]), ..Args::default() };
    assert_eq!(
        select_command(&args),
        Ok(Command::Add { name: s("n"), completion_time: s("t") })
    );
}

#[test]
fn wrong_value_counts_are_errors() {
    let args = Args { add_task: Some(vec![s("n")]), ..Args::default() };
    assert_eq!(select_command(&args), Err(CommandError::AddNeedsTwoValues));
    let args = Args { update_name: Some(vec![s("a"), s("b"), s("c")]), ..Args::default() };
    assert_eq!(select_command(&args), Err(CommandError::RenameNeedsTwoValues));
    let args = Args { update_concluded_time: Some(vec![]), ..Args::default() };
    assert_eq!(select_command(&args), Err(CommandError::RescheduleNeedsTwoValues));
}

#[test]
fn options_are_looked_at_in_order() {
    let args = Args {
        remove_task: Some(s("r")),
        concluded_task: Some(s("c")),
        view_tasks: Some(true),
        ..Args::default()
    };
    assert_eq!(select_command(&args), Ok(Command::Remove { name: s("r") }));
    let args = Args {
        update_concluded_time: Some(vec![s("a"), s("b")]),
        concluded_task: Some(s("c")),
        ..Args::default()
    };
    assert_eq!(
        select_command(&args),
        Ok(Command::Reschedule { name: s("a"), completion_time: s("b") })
    );
    let args = Args { concluded_task: Some(s("c")), ..Args::default() };
    assert_eq!(select_command(&args), Ok(Command::Complete { name: s("c") }));
}

#[test]
fn listing_flags_must_be_true() {
    let args = Args { view_tasks: Some(false), view_concluded_tasks: Some(true), ..Args::default() };
    assert_eq!(select_command(&args), Ok(Command::ListCompleted));
    let args = Args { view_tasks: Some(true), ..Args::default() };
    assert_eq!(select_command(&args), Ok(Command::ListActive));
    let args = Args { view_tasks: Some(false), view_concluded_tasks: Some(false), ..Args::default() };
    assert_eq!(select_command(&args), Err(CommandError::NoCommand));
    assert_eq!(select_command(&Args::default()), Err(CommandError::NoCommand));
}
