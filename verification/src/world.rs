//! What the engine achieves: a removal run against a model of the file system.
//!
//! The engine only ever asks; whether a target is gone in the end depends on
//! what answers. This module holds a small model of a file system that
//! answers as file systems do (a read-only entry cannot be deleted, nor a
//! directory that still holds something) and of a walk that produces contents
//! before their container. Against that model the removal of a file, of an
//! empty directory and of a whole tree is proved to end with the target gone
//! and everything else untouched.

use crate::config::Config;
use crate::engine::{DeletionModel, DeletionStage};
use crate::error::{DeleteErrorView, OutcomeView};
use crate::protocol::{EntryKind, ReplyView, RequestView};
use vstd::prelude::*;

verus! {

/// One entry of the modelled file system.
pub struct Node {
    /// What the entry is; never `Missing`.
    pub kind: EntryKind,
    /// Whether the entry carries the read-only attribute.
    pub read_only: bool,
    /// The directory that holds the entry, if any.
    pub parent: Option<Seq<char>>,
}

/// A file system, a walk under way in it, and the words in which it refuses.
pub struct World {
    /// The entries that exist, by path.
    pub nodes: Map<Seq<char>, Node>,
    /// The entries that the walk under way has yet to produce, next first.
    pub walk: Seq<Seq<char>>,
    /// The cause that the file system gives when it refuses an operation.
    pub refusal: Seq<char>,
}

impl World {
    /// Whether something exists at `path`.
    pub open spec fn has(self, path: Seq<char>) -> bool {
        self.nodes.dom().contains(path)
    }

    /// What `path` is.
    pub open spec fn kind(self, path: Seq<char>) -> EntryKind {
        if self.has(path) {
            self.nodes[path].kind
        } else {
            EntryKind::Missing
        }
    }

    /// Whether `child` exists and lies directly in `path`.
    pub open spec fn lies_in(self, child: Seq<char>, path: Seq<char>) -> bool {
        self.has(child) && self.nodes[child].parent == Some(path)
    }

    /// Whether nothing lies in `path`.
    pub open spec fn holds_nothing(self, path: Seq<char>) -> bool {
        forall|child: Seq<char>| !#[trigger] self.lies_in(child, path)
    }

    /// Whether the file system lets `path` be deleted as a `kind`: it exists,
    /// is of that kind, is not read-only and, if a directory, holds nothing.
    pub open spec fn lets_go(self, path: Seq<char>, kind: EntryKind) -> bool {
        &&& self.has(path)
        &&& self.nodes[path].kind == kind
        &&& !self.nodes[path].read_only
        &&& kind == EntryKind::Directory ==> self.holds_nothing(path)
    }

    /// The world without the entry at `path`.
    pub open spec fn without(self, path: Seq<char>) -> World {
        World { nodes: self.nodes.remove(path), ..self }
    }

    /// The world with the read-only attribute of `path` cleared.
    pub open spec fn cleared(self, path: Seq<char>) -> World {
        World {
            nodes: self.nodes.insert(path, Node { read_only: false, ..self.nodes[path] }),
            ..self
        }
    }

    /// The world after its walk has produced an entry.
    pub open spec fn advanced(self) -> World {
        World { walk: self.walk.drop_first(), ..self }
    }

    /// The world after the deletion of `path` was asked for, and the answer.
    pub open spec fn delete(self, path: Seq<char>, kind: EntryKind) -> (World, ReplyView) {
        if self.lets_go(path, kind) {
            (self.without(path), ReplyView::Done(Ok(())))
        } else {
            (self, ReplyView::Done(Err(self.refusal)))
        }
    }

    /// The world after `request` was performed, and the answer to it. A
    /// request that is no matter of the file system gets no answer.
    pub open spec fn answer(self, request: RequestView) -> Option<(World, ReplyView)> {
        match request {
            RequestView::Stat { path } => Some((self, ReplyView::Kind(self.kind(path)))),
            RequestView::ReadAttributes { path } => Some(
                (
                    self,
                    ReplyView::Attributes(
                        if self.has(path) {
                            Some(self.nodes[path].read_only)
                        } else {
                            None
                        },
                    ),
                ),
            ),
            RequestView::ClearReadOnly { path } => Some(
                if self.has(path) {
                    (self.cleared(path), ReplyView::Done(Ok(())))
                } else {
                    (self, ReplyView::Done(Err(self.refusal)))
                },
            ),
            RequestView::RemoveFile { path } => Some(self.delete(path, EntryKind::File)),
            RequestView::RemoveDir { path } => Some(self.delete(path, EntryKind::Directory)),
            RequestView::NextEntry { .. } => Some(
                if self.walk.len() > 0 {
                    (self.advanced(), ReplyView::Entry(Some(self.walk.first())))
                } else {
                    (self, ReplyView::Entry(None))
                },
            ),
            RequestView::Print { .. } => Some((self, ReplyView::Printed)),
            _ => None,
        }
    }

    /// Whether the walk under way is a walk of the tree below `root`,
    /// contents first: it will produce entries that exist, each once, and each
    /// a file or a directory; whatever lies in `root` or in an entry that it
    /// will produce, it will produce too, and before that entry.
    pub open spec fn walks_contents_first(self, root: Seq<char>) -> bool {
        &&& self.walk.no_duplicates()
        &&& !self.walk.contains(root)
        &&& forall|i: int|
            0 <= i < self.walk.len() ==> {
                &&& self.has(#[trigger] self.walk[i])
                &&& self.kind(self.walk[i]) == EntryKind::File || self.kind(self.walk[i])
                    == EntryKind::Directory
            }
        &&& forall|child: Seq<char>| #[trigger]
            self.lies_in(child, root) ==> self.walk.contains(child)
        &&& forall|child: Seq<char>, i: int|
            0 <= i < self.walk.len() && #[trigger] self.lies_in(child, self.walk[i]) ==> exists|
                j: int,
            |
                0 <= j < i && self.walk[j] == child
    }
}

/// The removal and the world after the removal was run against the world for
/// at most `steps` requests: each request is performed by the world, and the
/// answer handed to the removal.
pub open spec fn drive(deletion: DeletionModel, world: World, steps: nat) -> (DeletionModel, World)
    decreases steps,
{
    if steps == 0 {
        (deletion, world)
    } else {
        match deletion.pending() {
            None => (deletion, world),
            Some(request) => match world.answer(request) {
                None => (deletion, world),
                Some((after, reply)) => drive(deletion.next(reply), after, (steps - 1) as nat),
            },
        }
    }
}

/// A run is the sum of its parts: running for `first` requests and then for
/// `then` more is running for `first + then`.
pub proof fn lemma_drive_in_two(deletion: DeletionModel, world: World, first: nat, then: nat)
    ensures
        drive(deletion, world, first + then) == drive(
            drive(deletion, world, first).0,
            drive(deletion, world, first).1,
            then,
        ),
    decreases first,
{
    if first > 0 {
        match deletion.pending() {
            None => {
                assert(drive(deletion, world, then) == (deletion, world)) by {
                    if then > 0 {
                    }
                }
            },
            Some(request) => match world.answer(request) {
                None => {
                    assert(drive(deletion, world, then) == (deletion, world)) by {
                        if then > 0 {
                        }
                    }
                },
                Some((after, reply)) => {
                    lemma_drive_in_two(deletion.next(reply), after, (first - 1) as nat, then);
                    assert((first + then - 1) as nat == (first - 1) as nat + then);
                },
            },
        }
    }
}

/// A removal that has ended stays as it is, and so does the world, however
/// much longer it is run.
pub proof fn lemma_drive_ended(deletion: DeletionModel, world: World, first: nat, longer: nat)
    requires
        drive(deletion, world, first).0.pending().is_none(),
        first <= longer,
    ensures
        drive(deletion, world, longer) == drive(deletion, world, first),
{
    lemma_drive_in_two(deletion, world, first, (longer - first) as nat);
    assert(first + (longer - first) as nat == longer);
    let ended = drive(deletion, world, first);
    assert(drive(ended.0, ended.1, (longer - first) as nat) == ended) by {
        if longer - first > 0 {
        }
    }
}

/// A file that exists is removed, under every configuration and whatever
/// its attributes: the removal ends with `Removed` after at most five
/// requests, the file no longer exists, and nothing else has changed.
pub proof fn lemma_file_is_gone(world: World, path: Seq<char>, config: Config)
    requires
        world.kind(path) == EntryKind::File,
    ensures
        ({
            let (ended, after) = drive(DeletionModel::start(path, config), world, 5);
            &&& ended.outcome() == Some(OutcomeView::Removed)
            &&& !after.has(path)
            &&& after == world.without(path)
        }),
{
    reveal_with_fuel(drive, 6);
    let after = drive(DeletionModel::start(path, config), world, 5).1;
    assert(after.nodes =~= world.nodes.remove(path));
}

/// A directory that holds nothing is removed when empty directories may be:
/// the removal ends with `Removed` after at most five requests, the directory
/// no longer exists, and nothing else has changed.
pub proof fn lemma_empty_dir_is_gone(world: World, path: Seq<char>, config: Config)
    requires
        world.kind(path) == EntryKind::Directory,
        world.holds_nothing(path),
        config.allow_empty_dir,
        !config.recursive,
    ensures
        ({
            let (ended, after) = drive(DeletionModel::start(path, config), world, 5);
            &&& ended.outcome() == Some(OutcomeView::Removed)
            &&& !after.has(path)
            &&& after == world.without(path)
        }),
{
    reveal_with_fuel(drive, 6);
    let read_only = world.nodes[path].read_only;
    if read_only {
        assert forall|child: Seq<char>| !#[trigger] world.cleared(path).lies_in(child, path) by {
            assert(!world.lies_in(child, path));
        }
    }
    let after = drive(DeletionModel::start(path, config), world, 5).1;
    assert(after.nodes =~= world.nodes.remove(path));
}

/// A directory that holds something is not removed without recursion: the
/// removal ends with the `RemoveError` that the file system gave, the
/// directory and all it holds still exist, and nothing has changed but the
/// read-only attribute of the directory, which is cleared.
pub proof fn lemma_full_dir_is_kept(world: World, path: Seq<char>, config: Config)
    requires
        world.kind(path) == EntryKind::Directory,
        !world.holds_nothing(path),
        config.allow_empty_dir,
        !config.recursive,
    ensures
        ({
            let (ended, after) = drive(DeletionModel::start(path, config), world, 5);
            &&& ended.outcome() == Some(
                OutcomeView::Failed(
                    DeleteErrorView::RemoveError { path, cause: world.refusal },
                ),
            )
            &&& after.nodes.dom() == world.nodes.dom()
            &&& forall|other: Seq<char>|
                other != path && world.has(other) ==> after.nodes[other] == world.nodes[other]
            &&& after.nodes[path] == (Node { read_only: false, ..world.nodes[path] })
        }),
{
    reveal_with_fuel(drive, 6);
    let child = choose|child: Seq<char>| world.lies_in(child, path);
    assert(world.lies_in(child, path));
    assert(world.cleared(path).lies_in(child, path));
    let after = drive(DeletionModel::start(path, config), world, 5).1;
    assert(after.nodes.dom() =~= world.nodes.dom());
}

proof fn lemma_walk_goes_on(world: World, root: Seq<char>)
    requires
        world.walk.len() > 0,
        world.walks_contents_first(root),
    ensures
        world.walk.first() != root,
        world.has(world.walk.first()),
        world.kind(world.walk.first()) == EntryKind::File || world.kind(world.walk.first())
            == EntryKind::Directory,
        world.holds_nothing(world.walk.first()),
        world.without(world.walk.first()).advanced().walks_contents_first(root),
{
    let entry = world.walk.first();
    let next = world.without(entry).advanced();
    assert(world.walk[0] == entry);
    assert(world.walk.contains(entry));
    assert forall|child: Seq<char>| !#[trigger] world.lies_in(child, entry) by {
        if world.lies_in(child, entry) {
            assert(world.lies_in(child, world.walk[0]));
        }
    }
    assert forall|i: int| 0 <= i < next.walk.len() implies #[trigger] next.walk[i] == world.walk[i
        + 1] && next.walk[i] != entry by {
        assert(world.walk[i + 1] != world.walk[0]);
    }
    assert(next.walk.no_duplicates());
    assert(!next.walk.contains(root)) by {
        if next.walk.contains(root) {
            let i = choose|i: int| 0 <= i < next.walk.len() && next.walk[i] == root;
            assert(world.walk[i + 1] == root);
        }
    }
    assert forall|i: int| 0 <= i < next.walk.len() implies {
        &&& next.has(#[trigger] next.walk[i])
        &&& next.kind(next.walk[i]) == EntryKind::File || next.kind(next.walk[i])
            == EntryKind::Directory
    } by {
        assert(world.has(world.walk[i + 1]));
    }
    assert forall|child: Seq<char>| #[trigger] next.lies_in(child, root) implies next.walk.contains(
        child,
    ) by {
        assert(world.lies_in(child, root));
        let k = choose|k: int| 0 <= k < world.walk.len() && world.walk[k] == child;
        assert(next.walk[k - 1] == child);
    }
    assert forall|child: Seq<char>, i: int|
        0 <= i < next.walk.len() && #[trigger] next.lies_in(child, next.walk[i]) implies exists|
        j: int,
    |
        0 <= j < i && next.walk[j] == child by {
        assert(world.lies_in(child, world.walk[i + 1]));
        let k = choose|k: int| 0 <= k < i + 1 && world.walk[k] == child;
        assert(next.walk[k - 1] == child);
    }
}

proof fn lemma_entry_is_gone(world: World, root: Seq<char>, config: Config) -> (steps: nat)
    requires
        world.walk.len() > 0,
        world.walks_contents_first(root),
    ensures
        steps <= 6,
        drive(DeletionModel::walk(root, config), world, steps) == (
            DeletionModel::walk(root, config),
            world.without(world.walk.first()).advanced(),
        ),
{
    reveal_with_fuel(drive, 7);
    lemma_walk_goes_on(world, root);
    let entry = world.walk.first();
    let read_only = world.nodes[entry].read_only;
    let steps: nat = 4 + if read_only {
        1nat
    } else {
        0nat
    } + if config.verbose {
        1nat
    } else {
        0nat
    };
    if read_only {
        assert forall|child: Seq<char>| !#[trigger] world.advanced().cleared(entry).lies_in(
            child,
            entry,
        ) by {
            assert(!world.lies_in(child, entry));
        }
    } else {
        assert forall|child: Seq<char>| !#[trigger] world.advanced().lies_in(child, entry) by {
            assert(!world.lies_in(child, entry));
        }
    }
    let after = drive(DeletionModel::walk(root, config), world, steps).1;
    assert(after.nodes =~= world.nodes.remove(entry));
    steps
}

proof fn lemma_root_is_gone(world: World, root: Seq<char>, config: Config)
    requires
        world.walk.len() == 0,
        world.kind(root) == EntryKind::Directory,
        world.holds_nothing(root),
    ensures
        drive(DeletionModel::walk(root, config), world, 5).0.outcome() == Some(
            OutcomeView::Removed,
        ),
        drive(DeletionModel::walk(root, config), world, 5).1 == world.without(root),
{
    reveal_with_fuel(drive, 6);
    if world.nodes[root].read_only {
        assert forall|child: Seq<char>| !#[trigger] world.cleared(root).lies_in(child, root) by {
            assert(!world.lies_in(child, root));
        }
    }
    let after = drive(DeletionModel::walk(root, config), world, 5).1;
    assert(after.nodes =~= world.nodes.remove(root));
}

/// A walk that produces contents first lets the engine remove the whole tree:
/// the recursive removal of a directory ends with `Removed`; the directory
/// and everything that the walk produced no longer exist; everything else
/// exists as it was.
pub proof fn lemma_walk_removes_all(world: World, root: Seq<char>, config: Config)
    requires
        world.kind(root) == EntryKind::Directory,
        world.walks_contents_first(root),
    ensures
        ({
            let (ended, after) = drive(
                DeletionModel::walk(root, config),
                world,
                6 * world.walk.len() + 5,
            );
            &&& ended.outcome() == Some(OutcomeView::Removed)
            &&& forall|path: Seq<char>|
                after.has(path) <==> world.has(path) && path != root && !world.walk.contains(path)
            &&& forall|path: Seq<char>| after.has(path) ==> after.nodes[path] == world.nodes[path]
        }),
    decreases world.walk.len(),
{
    let begun = DeletionModel::walk(root, config);
    if world.walk.len() == 0 {
        assert forall|child: Seq<char>| !#[trigger] world.lies_in(child, root) by {
            if world.lies_in(child, root) {
                assert(world.walk.contains(child));
            }
        }
        lemma_root_is_gone(world, root, config);
    } else {
        let entry = world.walk.first();
        let next = world.without(entry).advanced();
        lemma_walk_goes_on(world, root);
        let steps = lemma_entry_is_gone(world, root, config);
        lemma_walk_removes_all(next, root, config);
        let rest = (6 * next.walk.len() + 5) as nat;
        lemma_drive_in_two(begun, world, steps, rest);
        lemma_drive_ended(begun, world, steps + rest, (6 * world.walk.len() + 5) as nat);
        let after = drive(begun, world, (6 * world.walk.len() + 5) as nat).1;
        assert(after == drive(begun, next, rest).1);
        assert(world.walk[0] == entry);
        assert forall|path: Seq<char>|
            after.has(path) <==> world.has(path) && path != root && !world.walk.contains(
                path,
            ) by {
            if next.walk.contains(path) {
                let i = choose|i: int| 0 <= i < next.walk.len() && next.walk[i] == path;
                assert(world.walk[i + 1] == path);
            }
            if world.walk.contains(path) && path != entry {
                let i = choose|i: int| 0 <= i < world.walk.len() && world.walk[i] == path;
                assert(next.walk[i - 1] == path);
            }
        }
    }
}

/// A tree is removed entirely, read-only entries and all. Let a directory be
/// given with recursion asked for, and let the walk of it produce contents
/// first. Then the removal ends with `Removed`, after at most six requests
/// for each entry and six more; the directory and everything below it no
/// longer exist; everything else exists as it was.
pub proof fn lemma_tree_is_gone(world: World, path: Seq<char>, config: Config)
    requires
        config.recursive,
        world.kind(path) == EntryKind::Directory,
        world.walks_contents_first(path),
    ensures
        ({
            let (ended, after) = drive(
                DeletionModel::start(path, config),
                world,
                6 * world.walk.len() + 6,
            );
            &&& ended.outcome() == Some(OutcomeView::Removed)
            &&& !after.has(path)
            &&& forall|other: Seq<char>|
                after.has(other) <==> world.has(other) && other != path && !world.walk.contains(
                    other,
                )
            &&& forall|other: Seq<char>|
                after.has(other) ==> after.nodes[other] == world.nodes[other]
        }),
{
    reveal_with_fuel(drive, 2);
    lemma_walk_removes_all(world, path, config);
    let begun = DeletionModel::start(path, config);
    assert(begun.next(ReplyView::Kind(EntryKind::Directory)) == DeletionModel::walk(path, config));
}

} // verus!
