//! The state machines stepped by hand, reply by reply.

use rm_for_windows::config::{Config, Interactive, AGGREGATE_THRESHOLD};
use rm_for_windows::engine::delete_path;
use rm_for_windows::error::{DeleteError, Outcome};
use rm_for_windows::estimate::count_deletions;
use rm_for_windows::leaf::{must_clear, remove_dir_force, remove_file_force, LeafKind, LeafRemoval};
use rm_for_windows::protocol::{EntryKind, Reply, Request};
use rm_for_windows::run::Run;

fn text(s: &str) -> String {
    s.to_string()
}

#[test]
fn switches_build_the_configuration() {
    let config = Config::from_flags(true, false, false, true, false, true);
    assert_eq!(
        config,
        Config {
            force: true,
            interactive: Interactive::Never,
            recursive: true,
            allow_empty_dir: false,
            verbose: true,
        }
    );
    let config = Config::from_flags(false, false, false, false, true, false);
    assert!(config.allow_empty_dir);
    assert!(!config.force && !config.recursive && !config.verbose);
}

#[test]
fn asking_every_time_wins_over_asking_once() {
    assert_eq!(
        Config::from_flags(false, true, true, false, false, false).interactive,
        Interactive::EachItem
    );
    assert_eq!(
        Config::from_flags(false, true, false, false, false, false).interactive,
        Interactive::EachItem
    );
    assert_eq!(
        Config::from_flags(false, false, true, false, false, false).interactive,
        Interactive::OnceAggregate
    );
    assert_eq!(
        Config::from_flags(false, false, false, false, false, false).interactive,
        Interactive::Never
    );
}

#[test]
fn default_configuration_has_every_switch_off() {
    assert_eq!(Config::default(), Config::from_flags(false, false, false, false, false, false));
}

#[test]
fn aggregate_prompt_is_due_above_three_entries_or_with_recursion() {
    assert_eq!(AGGREGATE_THRESHOLD, 3);
    let once = Config { interactive: Interactive::OnceAggregate, ..Config::default() };
    assert!(!once.needs_aggregate_prompt(0));
    assert!(!once.needs_aggregate_prompt(3));
    assert!(once.needs_aggregate_prompt(4));
    assert!(once.needs_aggregate_prompt(usize::MAX));
    let once_recursive = Config { recursive: true, ..once };
    assert!(once_recursive.needs_aggregate_prompt(0));
    assert!(once_recursive.needs_aggregate_prompt(1));
}

#[test]
fn aggregate_prompt_is_never_due_outside_the_once_mode() {
    let never = Config { recursive: true, ..Config::default() };
    assert!(!never.needs_aggregate_prompt(100));
    let each = Config { interactive: Interactive::EachItem, recursive: true, ..Config::default() };
    assert!(!each.needs_aggregate_prompt(100));
}

#[test]
fn each_request_is_answered_by_its_own_form_of_reply() {
    let stat = Request::Stat { path: text("p") };
    assert!(stat.answered_by(&Reply::Kind(EntryKind::File)));
    assert!(!stat.answered_by(&Reply::Printed));
    assert!(Request::ReadAttributes { path: text("p") }.answered_by(&Reply::Attributes(None)));
    assert!(Request::ClearReadOnly { path: text("p") }.answered_by(&Reply::Done(Ok(()))));
    assert!(Request::RemoveFile { path: text("p") }.answered_by(&Reply::Done(Err(text("no")))));
    assert!(Request::RemoveDir { path: text("p") }.answered_by(&Reply::Done(Ok(()))));
    assert!(!Request::RemoveDir { path: text("p") }.answered_by(&Reply::Answer(true)));
    let next = Request::NextEntry { root: text("p") };
    assert!(next.answered_by(&Reply::Entry(None)));
    assert!(next.answered_by(&Reply::Entry(Some(text("p/x")))));
    assert!(next.answered_by(&Reply::Unreadable(text("denied"))));
    assert!(!next.answered_by(&Reply::Kind(EntryKind::File)));
    assert!(Request::CountEntries { root: text("p") }.answered_by(&Reply::Count(2)));
    assert!(Request::Confirm { prompt: text("?") }.answered_by(&Reply::Answer(false)));
    assert!(Request::Print { line: text("l") }.answered_by(&Reply::Printed));
    assert!(!Request::Print { line: text("l") }.answered_by(&Reply::Count(1)));
}

#[test]
fn only_a_set_read_only_attribute_is_cleared() {
    assert!(must_clear(Some(true)));
    assert!(!must_clear(Some(false)));
    assert!(!must_clear(None));
}

#[test]
fn leaf_removal_of_a_writable_file_asks_for_two_operations() {
    let removal = remove_file_force(text("f"), &Config::default());
    assert_eq!(removal.path(), "f");
    assert!(!removal.is_finished());
    assert_eq!(removal.result(), None);
    assert_eq!(removal.pending(), Some(Request::ReadAttributes { path: text("f") }));
    let removal = removal.step(Reply::Attributes(Some(false)));
    assert_eq!(removal.pending(), Some(Request::RemoveFile { path: text("f") }));
    let removal = removal.step(Reply::Done(Ok(())));
    assert_eq!(removal.pending(), None);
    assert!(removal.is_finished());
    assert_eq!(removal.result(), Some(Ok(())));
}

#[test]
fn leaf_removal_goes_on_to_delete_when_attributes_cannot_be_read() {
    let removal = remove_dir_force(text("d"), &Config::default());
    let removal = removal.step(Reply::Attributes(None));
    assert_eq!(removal.pending(), Some(Request::RemoveDir { path: text("d") }));
    let removal = removal.step(Reply::Done(Err(text("not found"))));
    assert_eq!(
        removal.result(),
        Some(Err(DeleteError::RemoveError { path: text("d"), cause: text("not found") }))
    );
}

#[test]
fn leaf_removal_clears_a_read_only_attribute_first() {
    let verbose = Config { verbose: true, ..Config::default() };
    let removal = remove_dir_force(text("d"), &verbose);
    let removal = removal.step(Reply::Attributes(Some(true)));
    assert_eq!(removal.pending(), Some(Request::ClearReadOnly { path: text("d") }));
    let removal = removal.step(Reply::Done(Ok(())));
    assert_eq!(removal.pending(), Some(Request::RemoveDir { path: text("d") }));
    let removal = removal.step(Reply::Done(Ok(())));
    assert_eq!(removal.pending(), Some(Request::Print { line: text("removed directory 'd'") }));
    assert!(!removal.is_finished());
    let removal = removal.step(Reply::Printed);
    assert_eq!(removal.result(), Some(Ok(())));
}

#[test]
fn leaf_removal_fails_without_deleting_when_the_attribute_cannot_be_cleared() {
    let removal = LeafRemoval::start(text("f"), LeafKind::File, true);
    let removal = removal.step(Reply::Attributes(Some(true)));
    let removal = removal.step(Reply::Done(Err(text("access denied"))));
    assert_eq!(removal.pending(), None);
    assert_eq!(
        removal.result(),
        Some(Err(DeleteError::RemoveError { path: text("f"), cause: text("access denied") }))
    );
}

#[test]
fn reply_that_does_not_answer_changes_nothing() {
    let removal = remove_file_force(text("f"), &Config::default());
    let removal = removal.step(Reply::Done(Ok(())));
    assert_eq!(removal.pending(), Some(Request::ReadAttributes { path: text("f") }));
    let removal = removal.step(Reply::Attributes(None)).step(Reply::Printed);
    assert_eq!(removal.pending(), Some(Request::RemoveFile { path: text("f") }));

    let deletion = delete_path(text("t"), &Config::default()).step(Reply::Answer(true));
    assert_eq!(deletion.pending(), Some(Request::Stat { path: text("t") }));

    let estimate = count_deletions(vec![text("t")], &Config::default()).step(Reply::Count(9));
    assert_eq!(estimate.pending(), Some(Request::Stat { path: text("t") }));

    let run = Run::start(vec![text("t")], &Config::default()).step(Reply::Entry(None));
    assert_eq!(run.pending(), Some(Request::Stat { path: text("t") }));
}

#[test]
fn finished_machines_stay_finished() {
    let removal = remove_file_force(text("f"), &Config::default())
        .step(Reply::Attributes(None))
        .step(Reply::Done(Ok(())))
        .step(Reply::Done(Err(text("late"))));
    assert_eq!(removal.result(), Some(Ok(())));

    let deletion = delete_path(text("gone"), &Config::default())
        .step(Reply::Kind(EntryKind::Missing))
        .step(Reply::Kind(EntryKind::File));
    assert_eq!(
        deletion.outcome(),
        Some(&Outcome::Failed(DeleteError::NotFound { path: text("gone") }))
    );
    assert_eq!(deletion.path(), "gone");

    let run = Run::start(Vec::new(), &Config::default()).step(Reply::Printed);
    assert_eq!(run.status(), Some(Ok(())));
    assert_eq!(run.exit_code(), Some(0));
}

#[test]
fn deletion_of_a_tree_asks_entry_by_entry() {
    let config = Config { recursive: true, ..Config::default() };
    let mut deletion = delete_path(text("t"), &config);
    let script = vec![
        (Request::Stat { path: text("t") }, Reply::Kind(EntryKind::Directory)),
        (Request::NextEntry { root: text("t") }, Reply::Entry(Some(text("t/a")))),
        (Request::Stat { path: text("t/a") }, Reply::Kind(EntryKind::File)),
        (Request::ReadAttributes { path: text("t/a") }, Reply::Attributes(Some(false))),
        (Request::RemoveFile { path: text("t/a") }, Reply::Done(Ok(()))),
        (Request::NextEntry { root: text("t") }, Reply::Entry(Some(text("t/gone")))),
        (Request::Stat { path: text("t/gone") }, Reply::Kind(EntryKind::Missing)),
        (Request::NextEntry { root: text("t") }, Reply::Entry(Some(text("t/d")))),
        (Request::Stat { path: text("t/d") }, Reply::Kind(EntryKind::Directory)),
        (Request::ReadAttributes { path: text("t/d") }, Reply::Attributes(Some(true))),
        (Request::ClearReadOnly { path: text("t/d") }, Reply::Done(Ok(()))),
        (Request::RemoveDir { path: text("t/d") }, Reply::Done(Ok(()))),
        (Request::NextEntry { root: text("t") }, Reply::Entry(None)),
        (Request::ReadAttributes { path: text("t") }, Reply::Attributes(None)),
        (Request::RemoveDir { path: text("t") }, Reply::Done(Ok(()))),
    ];
    for (expected, reply) in script {
        assert_eq!(deletion.pending(), Some(expected));
        assert!(!deletion.is_finished());
        deletion = deletion.step(reply);
    }
    assert_eq!(deletion.pending(), None);
    assert_eq!(deletion.outcome(), Some(&Outcome::Removed));
}

#[test]
fn estimate_adds_up_and_saturates() {
    let config = Config { recursive: true, ..Config::default() };
    let estimate = count_deletions(vec![text("a"), text("b"), text("c")], &config);
    assert!(!estimate.is_finished());
    let estimate = estimate.step(Reply::Kind(EntryKind::Directory));
    assert_eq!(estimate.pending(), Some(Request::CountEntries { root: text("a") }));
    let estimate = estimate.step(Reply::Count(usize::MAX - 1));
    assert_eq!(estimate.result(), None);
    let estimate = estimate.step(Reply::Kind(EntryKind::File));
    let estimate = estimate.step(Reply::Kind(EntryKind::File));
    assert!(estimate.is_finished());
    assert_eq!(estimate.result(), Some(Ok(usize::MAX)));
}

#[test]
fn run_in_the_once_mode_counts_before_it_asks() {
    let config = Config {
        interactive: Interactive::OnceAggregate,
        recursive: true,
        ..Config::default()
    };
    let mut run = Run::start(vec![text("d")], &config);
    let script = vec![
        (Request::Stat { path: text("d") }, Reply::Kind(EntryKind::Directory)),
        (Request::CountEntries { root: text("d") }, Reply::Count(6)),
        (
            Request::Confirm { prompt: text("Remove 6 files and directories recursively?") },
            Reply::Answer(true),
        ),
        (Request::Stat { path: text("d") }, Reply::Kind(EntryKind::Directory)),
        (Request::Stat { path: text("d") }, Reply::Kind(EntryKind::Directory)),
        (Request::NextEntry { root: text("d") }, Reply::Entry(None)),
        (Request::ReadAttributes { path: text("d") }, Reply::Attributes(Some(false))),
        (Request::RemoveDir { path: text("d") }, Reply::Done(Err(text("directory not empty")))),
    ];
    for (expected, reply) in script {
        assert_eq!(run.pending(), Some(expected));
        assert_eq!(run.exit_code(), None);
        run = run.step(reply);
    }
    let error = DeleteError::RemoveError { path: text("d"), cause: text("directory not empty") };
    assert!(run.is_finished());
    assert_eq!(run.status(), Some(Err(&error)));
    assert_eq!(run.exit_code(), Some(1));
    assert_eq!(run.outcomes(), &vec![Outcome::Failed(error.duplicate())]);
}

#[test]
fn run_with_no_targets_in_the_once_mode_with_recursion_still_asks() {
    let config = Config {
        interactive: Interactive::OnceAggregate,
        recursive: true,
        ..Config::default()
    };
    let run = Run::start(Vec::new(), &config);
    assert_eq!(
        run.pending(),
        Some(Request::Confirm { prompt: text("Remove 0 files and directories recursively?") })
    );
    let run = run.step(Reply::Answer(true));
    assert_eq!(run.status(), Some(Ok(())));
}
