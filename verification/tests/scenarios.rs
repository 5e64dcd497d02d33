//! The engines driven against a small file system held in memory.

use rm_for_windows::config::{Config, Interactive};
use rm_for_windows::engine::{delete_path, remove_dir_recursive, Deletion};
use rm_for_windows::error::{DeleteError, Outcome};
use rm_for_windows::estimate::count_deletions;
use rm_for_windows::protocol::{EntryKind, Reply, Request};
use rm_for_windows::run::Run;

struct Node {
    path: String,
    kind: EntryKind,
    read_only: bool,
}

/// A file system in memory, with a terminal beside it. A read-only node
/// cannot be deleted, and a directory cannot be deleted while anything is
/// below it.
struct World {
    nodes: Vec<Node>,
    walk: Option<Vec<String>>,
    answers: Vec<bool>,
    prompts: Vec<String>,
    printed: Vec<String>,
    log: Vec<String>,
}

impl World {
    fn new() -> World {
        World {
            nodes: Vec::new(),
            walk: None,
            answers: Vec::new(),
            prompts: Vec::new(),
            printed: Vec::new(),
            log: Vec::new(),
        }
    }

    fn add(&mut self, path: &str, kind: EntryKind, read_only: bool) {
        self.nodes.push(Node { path: path.to_string(), kind, read_only });
    }

    fn file(mut self, path: &str) -> World {
        self.add(path, EntryKind::File, false);
        self
    }

    fn locked_file(mut self, path: &str) -> World {
        self.add(path, EntryKind::File, true);
        self
    }

    fn dir(mut self, path: &str) -> World {
        self.add(path, EntryKind::Directory, false);
        self
    }

    fn device(mut self, path: &str) -> World {
        self.add(path, EntryKind::Other, false);
        self
    }

    fn answering(mut self, answers: &[bool]) -> World {
        self.answers = answers.to_vec();
        self
    }

    fn position(&self, path: &str) -> Option<usize> {
        self.nodes.iter().position(|node| node.path == path)
    }

    fn holds(&self, path: &str) -> bool {
        self.position(path).is_some()
    }

    fn below(&self, root: &str) -> Vec<String> {
        let prefix = format!("{}/", root);
        let mut found: Vec<String> = self
            .nodes
            .iter()
            .filter(|node| node.path.starts_with(&prefix))
            .map(|node| node.path.clone())
            .collect();
        found.sort();
        found.reverse();
        found
    }

    fn delete(&mut self, path: &str, wanted: EntryKind) -> Result<(), String> {
        let at = match self.position(path) {
            Some(at) => at,
            None => return Err("not found".to_string()),
        };
        if self.nodes[at].kind != wanted {
            return Err("wrong kind".to_string());
        }
        if self.nodes[at].read_only {
            return Err("access denied".to_string());
        }
        if !self.below(path).is_empty() {
            return Err("directory not empty".to_string());
        }
        self.nodes.remove(at);
        Ok(())
    }

    fn perform(&mut self, request: Request) -> Reply {
        self.log.push(format!("{:?}", request));
        match request {
            Request::Stat { path } => Reply::Kind(match self.position(&path) {
                Some(at) => self.nodes[at].kind,
                None => EntryKind::Missing,
            }),
            Request::ReadAttributes { path } => {
                Reply::Attributes(self.position(&path).map(|at| self.nodes[at].read_only))
            }
            Request::ClearReadOnly { path } => Reply::Done(match self.position(&path) {
                Some(at) => {
                    self.nodes[at].read_only = false;
                    Ok(())
                }
                None => Err("not found".to_string()),
            }),
            Request::RemoveFile { path } => Reply::Done(self.delete(&path, EntryKind::File)),
            Request::RemoveDir { path } => Reply::Done(self.delete(&path, EntryKind::Directory)),
            Request::NextEntry { root } => {
                if self.walk.is_none() {
                    let mut queue = self.below(&root);
                    queue.reverse();
                    self.walk = Some(queue);
                }
                let next = self.walk.as_mut().and_then(|queue| queue.pop());
                if next.is_none() {
                    self.walk = None;
                }
                Reply::Entry(next)
            }
            Request::CountEntries { root } => Reply::Count(1 + self.below(&root).len()),
            Request::Confirm { prompt } => {
                self.prompts.push(prompt);
                Reply::Answer(self.answers.remove(0))
            }
            Request::Print { line } => {
                self.printed.push(line);
                Reply::Printed
            }
        }
    }

    fn delete_with(&mut self, mut deletion: Deletion) -> Outcome {
        while let Some(request) = deletion.pending() {
            let reply = self.perform(request);
            deletion = deletion.step(reply);
        }
        assert!(deletion.is_finished());
        deletion.outcome().unwrap().duplicate()
    }

    fn delete_path(&mut self, path: &str, config: &Config) -> Outcome {
        self.delete_with(delete_path(path.to_string(), config))
    }

    fn count(&mut self, paths: &[&str], config: &Config) -> Result<usize, DeleteError> {
        let mut estimate = count_deletions(paths.iter().map(|p| p.to_string()).collect(), config);
        while let Some(request) = estimate.pending() {
            let reply = self.perform(request);
            estimate = estimate.step(reply);
        }
        assert!(estimate.is_finished());
        estimate.result().unwrap()
    }

    fn run(&mut self, paths: &[&str], config: &Config) -> Run {
        let mut run = Run::start(paths.iter().map(|p| p.to_string()).collect(), config);
        while let Some(request) = run.pending() {
            let reply = self.perform(request);
            run = run.step(reply);
        }
        assert!(run.is_finished());
        run
    }

    fn place_in_log(&self, line: &str) -> usize {
        self.log.iter().position(|entry| entry == line).unwrap()
    }
}

fn recursive() -> Config {
    Config { recursive: true, ..Config::default() }
}

fn status_of(run: &Run) -> Result<(), DeleteError> {
    match run.status().unwrap() {
        Ok(()) => Ok(()),
        Err(error) => Err(error.duplicate()),
    }
}

#[test]
fn existing_file_is_removed_under_the_default_configuration() {
    let mut world = World::new().file("notes.txt");
    let outcome = world.delete_path("notes.txt", &Config::default());
    assert_eq!(outcome, Outcome::Removed);
    assert!(!world.holds("notes.txt"));
    assert!(world.printed.is_empty());
}

#[test]
fn read_only_file_is_removed_after_its_attribute_is_cleared() {
    let mut world = World::new().locked_file("locked.txt");
    let outcome = world.delete_path("locked.txt", &Config::default());
    assert_eq!(outcome, Outcome::Removed);
    assert!(!world.holds("locked.txt"));
    assert_eq!(
        world.log,
        vec![
            "Stat { path: \"locked.txt\" }",
            "ReadAttributes { path: \"locked.txt\" }",
            "ClearReadOnly { path: \"locked.txt\" }",
            "RemoveFile { path: \"locked.txt\" }",
        ]
    );
}

#[test]
fn writable_file_is_not_cleared() {
    let mut world = World::new().file("plain.txt");
    world.delete_path("plain.txt", &Config::default());
    assert_eq!(
        world.log,
        vec![
            "Stat { path: \"plain.txt\" }",
            "ReadAttributes { path: \"plain.txt\" }",
            "RemoveFile { path: \"plain.txt\" }",
        ]
    );
}

#[test]
fn empty_directory_is_removed_when_empty_directories_are_allowed() {
    let mut world = World::new().dir("empty");
    let config = Config { allow_empty_dir: true, ..Config::default() };
    assert_eq!(world.delete_path("empty", &config), Outcome::Removed);
    assert!(!world.holds("empty"));
}

#[test]
fn non_empty_directory_without_recursion_fails_with_remove_error() {
    let mut world = World::new().dir("full").file("full/a.txt");
    let config = Config { allow_empty_dir: true, ..Config::default() };
    assert_eq!(
        world.delete_path("full", &config),
        Outcome::Failed(DeleteError::RemoveError {
            path: "full".to_string(),
            cause: "directory not empty".to_string(),
        })
    );
    assert!(world.holds("full"));
    assert!(world.holds("full/a.txt"));
}

#[test]
fn directory_without_recursion_or_leave_is_refused_untouched() {
    let mut world = World::new().dir("d");
    assert_eq!(
        world.delete_path("d", &Config::default()),
        Outcome::Failed(DeleteError::IsADirectory { path: "d".to_string() })
    );
    assert_eq!(world.log, vec!["Stat { path: \"d\" }"]);
    assert!(world.holds("d"));
}

#[test]
fn unsupported_kind_is_refused_untouched() {
    let mut world = World::new().device("dev");
    assert_eq!(
        world.delete_path("dev", &recursive()),
        Outcome::Failed(DeleteError::UnsupportedType { path: "dev".to_string() })
    );
    assert_eq!(world.log, vec!["Stat { path: \"dev\" }"]);
}

#[test]
fn tree_with_read_only_file_is_removed_entirely() {
    let mut world = World::new()
        .dir("t")
        .file("t/a.txt")
        .dir("t/sub")
        .locked_file("t/sub/locked.txt")
        .dir("t/sub/deep")
        .file("t/sub/deep/x");
    assert_eq!(world.delete_path("t", &recursive()), Outcome::Removed);
    assert!(world.nodes.is_empty());
    assert!(world.log.contains(&"ClearReadOnly { path: \"t/sub/locked.txt\" }".to_string()));
}

#[test]
fn contents_are_removed_before_their_container() {
    let mut world = World::new().dir("t").dir("t/sub").file("t/sub/f").file("t/g");
    assert_eq!(world.delete_path("t", &recursive()), Outcome::Removed);
    let file = world.place_in_log("RemoveFile { path: \"t/sub/f\" }");
    let sub = world.place_in_log("RemoveDir { path: \"t/sub\" }");
    let other = world.place_in_log("RemoveFile { path: \"t/g\" }");
    let root = world.place_in_log("RemoveDir { path: \"t\" }");
    assert!(file < sub);
    assert!(sub < root);
    assert!(other < root);
    assert_eq!(root, world.log.len() - 1);
}

#[test]
fn every_path_is_normalized_once_before_it_is_deleted() {
    let mut world = World::new().dir("t").locked_file("t/a").file("t/b");
    world.delete_path("t", &recursive());
    for path in ["t/a", "t/b", "t"] {
        let reads = world
            .log
            .iter()
            .filter(|line| **line == format!("ReadAttributes {{ path: {:?} }}", path))
            .count();
        assert_eq!(reads, 1);
    }
    let read = world.place_in_log("ReadAttributes { path: \"t/a\" }");
    let clear = world.place_in_log("ClearReadOnly { path: \"t/a\" }");
    let delete = world.place_in_log("RemoveFile { path: \"t/a\" }");
    assert!(read < clear && clear < delete);
}

#[test]
fn failure_inside_a_walk_ends_that_target() {
    let mut world = World::new().dir("t").file("t/a").file("t/b");
    let mut deletion = remove_dir_recursive("t".to_string(), &recursive());
    let mut refused = false;
    while let Some(request) = deletion.pending() {
        let reply = match &request {
            Request::RemoveFile { path } if path == "t/b" => {
                refused = true;
                Reply::Done(Err("device busy".to_string()))
            }
            _ => world.perform(request),
        };
        deletion = deletion.step(reply);
    }
    assert!(refused);
    assert_eq!(
        deletion.outcome().unwrap(),
        &Outcome::Failed(DeleteError::RemoveError {
            path: "t/b".to_string(),
            cause: "device busy".to_string(),
        })
    );
    assert!(world.holds("t"));
    assert!(world.holds("t/a"));
    assert!(!world.log.contains(&"RemoveDir { path: \"t\" }".to_string()));
}

#[test]
fn entry_that_cannot_be_read_is_passed_over() {
    let mut world = World::new().dir("t").file("t/a");
    let mut deletion = remove_dir_recursive("t".to_string(), &recursive());
    assert_eq!(deletion.pending(), Some(Request::NextEntry { root: "t".to_string() }));
    deletion = deletion.step(Reply::Unreadable("permission denied".to_string()));
    assert_eq!(deletion.pending(), Some(Request::NextEntry { root: "t".to_string() }));
    assert_eq!(world.delete_with(deletion), Outcome::Removed);
    assert!(world.nodes.is_empty());
}

#[test]
fn entry_that_is_neither_file_nor_directory_is_passed_over() {
    let mut world = World::new().dir("t").device("t/dev");
    assert_eq!(
        world.delete_path("t", &recursive()),
        Outcome::Failed(DeleteError::RemoveError {
            path: "t".to_string(),
            cause: "directory not empty".to_string(),
        })
    );
    assert!(world.holds("t/dev"));
}

#[test]
fn verbose_removal_reports_every_entry_after_it_is_gone() {
    let mut world = World::new().dir("t").file("t/a");
    let config = Config { recursive: true, verbose: true, ..Config::default() };
    assert_eq!(world.delete_path("t", &config), Outcome::Removed);
    assert_eq!(world.printed, vec!["removed 't/a'", "removed directory 't'"]);
    let gone = world.place_in_log("RemoveFile { path: \"t/a\" }");
    let told = world.place_in_log("Print { line: \"removed 't/a'\" }");
    assert_eq!(told, gone + 1);
}

#[test]
fn failed_removal_is_not_reported() {
    let mut world = World::new().dir("full").file("full/a");
    let config = Config { allow_empty_dir: true, verbose: true, ..Config::default() };
    assert!(!world.delete_path("full", &config).is_success());
    assert!(world.printed.is_empty());
}

#[test]
fn missing_target_fails_with_not_found() {
    let mut world = World::new();
    assert_eq!(
        world.delete_path("does/not/exist", &Config::default()),
        Outcome::Failed(DeleteError::NotFound { path: "does/not/exist".to_string() })
    );
}

#[test]
fn missing_target_is_tolerated_under_force_without_any_change() {
    let mut world = World::new().file("other");
    let config = Config { force: true, ..Config::default() };
    assert_eq!(world.delete_path("does/not/exist", &config), Outcome::SkippedMissing);
    assert_eq!(world.log, vec!["Stat { path: \"does/not/exist\" }"]);
    assert!(world.holds("other"));
}

#[test]
fn estimate_of_three_plain_files_is_three() {
    let mut world = World::new().file("a").file("b").file("c");
    assert_eq!(world.count(&["a", "b", "c"], &Config::default()), Ok(3));
}

#[test]
fn estimate_of_one_empty_directory_without_recursion_is_one() {
    let mut world = World::new().dir("d");
    assert_eq!(world.count(&["d"], &Config::default()), Ok(1));
}

#[test]
fn estimate_of_a_directory_of_five_files_with_recursion_is_six() {
    let mut world =
        World::new().dir("d").file("d/1").file("d/2").file("d/3").file("d/4").file("d/5");
    assert_eq!(world.count(&["d"], &recursive()), Ok(6));
}

#[test]
fn estimate_of_a_full_directory_without_recursion_is_one() {
    let mut world = World::new().dir("d").file("d/1").file("d/2");
    assert_eq!(world.count(&["d"], &Config::default()), Ok(1));
    assert!(!world.log.iter().any(|line| line.starts_with("CountEntries")));
}

#[test]
fn estimate_stops_at_a_missing_target() {
    let mut world = World::new().file("a").file("c");
    assert_eq!(
        world.count(&["a", "gone", "c"], &Config::default()),
        Err(DeleteError::NotFound { path: "gone".to_string() })
    );
    assert_eq!(world.log, vec!["Stat { path: \"a\" }", "Stat { path: \"gone\" }"]);
}

#[test]
fn estimate_counts_a_missing_target_as_nothing_under_force() {
    let mut world = World::new().file("a").dir("d").file("d/x").device("dev");
    let config = Config { force: true, recursive: true, ..Config::default() };
    assert_eq!(world.count(&["a", "gone", "d", "dev"], &config), Ok(3));
}

#[test]
fn estimate_of_no_targets_is_zero() {
    let mut world = World::new();
    assert_eq!(world.count(&[], &Config::default()), Ok(0));
    assert!(world.log.is_empty());
}

#[test]
fn three_plain_files_are_removed_without_a_prompt_in_the_once_mode() {
    let mut world = World::new().file("a").file("b").file("c");
    let config = Config { interactive: Interactive::OnceAggregate, ..Config::default() };
    let run = world.run(&["a", "b", "c"], &config);
    assert_eq!(status_of(&run), Ok(()));
    assert!(world.prompts.is_empty());
    assert!(world.nodes.is_empty());
}

#[test]
fn four_plain_files_are_asked_about_exactly_once_in_the_once_mode() {
    for with_recursion in [false, true] {
        let mut world = World::new().file("a").file("b").file("c").file("d").answering(&[true]);
        let config = Config {
            interactive: Interactive::OnceAggregate,
            recursive: with_recursion,
            ..Config::default()
        };
        let run = world.run(&["a", "b", "c", "d"], &config);
        assert_eq!(status_of(&run), Ok(()));
        assert_eq!(world.prompts, vec!["Remove 4 files and directories recursively?"]);
        assert!(world.nodes.is_empty());
    }
}

#[test]
fn recursion_is_asked_about_once_whatever_the_count() {
    let mut world = World::new().file("a").answering(&[true]);
    let config = Config {
        interactive: Interactive::OnceAggregate,
        recursive: true,
        ..Config::default()
    };
    world.run(&["a"], &config);
    assert_eq!(world.prompts, vec!["Remove 1 files and directories recursively?"]);
}

#[test]
fn declining_the_whole_run_touches_nothing_and_is_no_error() {
    let mut world = World::new().file("a").file("b").file("c").file("d").answering(&[false]);
    let config = Config { interactive: Interactive::OnceAggregate, ..Config::default() };
    let run = world.run(&["a", "b", "c", "d"], &config);
    assert_eq!(status_of(&run), Ok(()));
    assert_eq!(run.exit_code(), Some(0));
    assert!(run.outcomes().is_empty());
    assert_eq!(world.nodes.len(), 4);
    assert!(!world.log.iter().any(|line| line.starts_with("Remove")));
}

#[test]
fn once_mode_fails_on_a_missing_target_before_asking() {
    let mut world = World::new().file("a");
    let config = Config { interactive: Interactive::OnceAggregate, ..Config::default() };
    let run = world.run(&["a", "gone"], &config);
    assert_eq!(status_of(&run), Err(DeleteError::NotFound { path: "gone".to_string() }));
    assert_eq!(run.exit_code(), Some(1));
    assert!(world.prompts.is_empty());
    assert!(world.holds("a"));
}

#[test]
fn each_target_is_asked_about_and_a_no_skips_only_that_target() {
    let mut world = World::new().file("a").file("b").file("c").answering(&[true, false, true]);
    let config = Config { interactive: Interactive::EachItem, ..Config::default() };
    let run = world.run(&["a", "b", "c"], &config);
    assert_eq!(status_of(&run), Ok(()));
    assert_eq!(world.prompts, vec!["remove 'a'?", "remove 'b'?", "remove 'c'?"]);
    assert!(!world.holds("a"));
    assert!(world.holds("b"));
    assert!(!world.holds("c"));
    assert_eq!(run.outcomes(), &vec![Outcome::Removed, Outcome::Removed]);
}

#[test]
fn forced_run_goes_on_past_a_missing_target_and_a_failure() {
    let mut world = World::new().file("file").dir("dir").file("dir/inner");
    let config = Config { force: true, ..Config::default() };
    let run = world.run(&["file", "missing", "dir"], &config);
    assert_eq!(
        run.outcomes(),
        &vec![
            Outcome::Removed,
            Outcome::SkippedMissing,
            Outcome::Failed(DeleteError::IsADirectory { path: "dir".to_string() }),
        ]
    );
    assert_eq!(status_of(&run), Ok(()));
    assert_eq!(run.exit_code(), Some(0));
    assert!(!world.holds("file"));
    assert!(world.holds("dir"));
    assert!(world.holds("dir/inner"));
}

#[test]
fn unforced_run_ends_at_the_first_failure() {
    let mut world = World::new().file("a").dir("d").file("z");
    let run = world.run(&["a", "d", "z"], &Config::default());
    assert_eq!(status_of(&run), Err(DeleteError::IsADirectory { path: "d".to_string() }));
    assert_eq!(run.exit_code(), Some(1));
    assert_eq!(
        run.outcomes(),
        &vec![
            Outcome::Removed,
            Outcome::Failed(DeleteError::IsADirectory { path: "d".to_string() }),
        ]
    );
    assert!(world.holds("z"));
}

#[test]
fn unforced_run_ends_at_a_missing_target() {
    let mut world = World::new().file("z");
    let run = world.run(&["gone", "z"], &Config::default());
    assert_eq!(status_of(&run), Err(DeleteError::NotFound { path: "gone".to_string() }));
    assert!(world.holds("z"));
    assert_eq!(world.log, vec!["Stat { path: \"gone\" }"]);
}

#[test]
fn run_over_no_targets_ends_at_once() {
    let mut world = World::new();
    let run = world.run(&[], &Config::default());
    assert_eq!(status_of(&run), Ok(()));
    assert!(world.log.is_empty());
}

#[test]
fn whole_run_removes_files_and_trees() {
    let mut world = World::new().file("a").dir("t").locked_file("t/x").dir("t/u").file("t/u/y");
    let config = Config { recursive: true, verbose: true, ..Config::default() };
    let run = world.run(&["a", "t"], &config);
    assert_eq!(status_of(&run), Ok(()));
    assert!(world.nodes.is_empty());
    assert_eq!(
        world.printed,
        vec![
            "removed 'a'",
            "removed 't/x'",
            "removed 't/u/y'",
            "removed directory 't/u'",
            "removed directory 't'",
        ]
    );
}
