//! The deletion engine: the removal of one target, whatever it is.
//!
//! The engine looks at the target and decides by the configuration what is to
//! happen. A directory that is removed recursively is walked, contents before
//! their container; every entry is removed as a leaf, in the order in which
//! the walk produces it, and the directory itself last.
//!
//! Two rules of the walk are deliberate. What the walk cannot read is passed
//! over, with or without `force`: the removal goes on, and if something was
//! left behind, the deletion of the directory that holds it fails and says so.
//! And the first leaf that fails ends the removal of its target, with or
//! without `force`: `force` decides only whether the run goes on to the next
//! target.

use crate::config::Config;
use crate::error::{DeleteError, DeleteErrorView, Outcome, OutcomeView};
use crate::leaf::{needs_clearing, LeafKind, LeafModel, LeafRemoval};
use crate::protocol::{
    answers_pending, request_view, EntryKind, Reply, ReplyView, Request, RequestView,
};
use crate::text::{removed_dir_line, removed_file_line};
use vstd::prelude::*;

verus! {

/// Where the removal of a target stands.
pub enum DeletionStage {
    /// The target is being looked at.
    Resolving,
    /// The target itself, a file or a directory taken to be empty, is being
    /// removed; nothing was walked.
    Single(LeafModel),
    /// The next entry below the target is being asked for.
    Listing,
    /// An entry that the walk produced is being looked at.
    Probing { entry: Seq<char> },
    /// An entry that the walk produced is being removed.
    Entry(LeafModel),
    /// The walk is exhausted and the target directory itself is being removed.
    Root(LeafModel),
    /// The removal has ended.
    Finished(OutcomeView),
}

/// The mathematical value of a [`Deletion`].
pub struct DeletionModel {
    pub path: Seq<char>,
    pub config: Config,
    pub stage: DeletionStage,
}

/// What the removal of a leaf that has gone as far as `leaf` means for the
/// target as a whole, when the leaf is the last thing to remove: the target's
/// outcome once the leaf has ended, and `None` before.
pub open spec fn leaf_outcome(leaf: LeafModel) -> Option<OutcomeView> {
    match leaf.result() {
        Some(Ok(())) => Some(OutcomeView::Removed),
        Some(Err(error)) => Some(OutcomeView::Failed(error)),
        None => None,
    }
}

impl DeletionModel {
    /// The removal of `path` before anything was asked.
    pub open spec fn start(path: Seq<char>, config: Config) -> DeletionModel {
        DeletionModel { path, config, stage: DeletionStage::Resolving }
    }

    /// The recursive removal of the directory `path`, at the start of its walk.
    pub open spec fn walk(path: Seq<char>, config: Config) -> DeletionModel {
        DeletionModel { path, config, stage: DeletionStage::Listing }
    }

    /// The removal at the given stage.
    pub open spec fn at(self, stage: DeletionStage) -> DeletionModel {
        DeletionModel { stage, ..self }
    }

    /// A fresh leaf removal of `path` under this removal's configuration.
    pub open spec fn leaf(self, path: Seq<char>, kind: LeafKind) -> LeafModel {
        LeafModel::start(path, kind, self.config.verbose)
    }

    /// The stage that follows once the target was found to be of `kind`.
    pub open spec fn resolved(self, kind: EntryKind) -> DeletionStage {
        match kind {
            EntryKind::Missing => if self.config.force {
                DeletionStage::Finished(OutcomeView::SkippedMissing)
            } else {
                DeletionStage::Finished(
                    OutcomeView::Failed(DeleteErrorView::NotFound { path: self.path }),
                )
            },
            EntryKind::File => DeletionStage::Single(self.leaf(self.path, LeafKind::File)),
            EntryKind::Directory => if self.config.recursive {
                DeletionStage::Listing
            } else if self.config.allow_empty_dir {
                DeletionStage::Single(self.leaf(self.path, LeafKind::Directory))
            } else {
                DeletionStage::Finished(
                    OutcomeView::Failed(DeleteErrorView::IsADirectory { path: self.path }),
                )
            },
            EntryKind::Other => DeletionStage::Finished(
                OutcomeView::Failed(DeleteErrorView::UnsupportedType { path: self.path }),
            ),
        }
    }

    /// The stage that follows once the walked `entry` was found to be of
    /// `kind`: files and directories are removed, anything else is passed over.
    pub open spec fn probed(self, entry: Seq<char>, kind: EntryKind) -> DeletionStage {
        match kind {
            EntryKind::File => DeletionStage::Entry(self.leaf(entry, LeafKind::File)),
            EntryKind::Directory => DeletionStage::Entry(self.leaf(entry, LeafKind::Directory)),
            _ => DeletionStage::Listing,
        }
    }

    /// The request that the removal waits for, or `None` once it has ended.
    pub open spec fn pending(self) -> Option<RequestView> {
        match self.stage {
            DeletionStage::Resolving => Some(RequestView::Stat { path: self.path }),
            DeletionStage::Single(leaf) => leaf.pending(),
            DeletionStage::Listing => Some(RequestView::NextEntry { root: self.path }),
            DeletionStage::Probing { entry } => Some(RequestView::Stat { path: entry }),
            DeletionStage::Entry(leaf) => leaf.pending(),
            DeletionStage::Root(leaf) => leaf.pending(),
            DeletionStage::Finished(_) => None,
        }
    }

    /// The removal after `reply` was handed to it. A reply that does not
    /// answer the pending request changes nothing. The first failure of a leaf
    /// ends the removal of the whole target. An entry that the walk could not
    /// read is passed over: the next one is asked for.
    pub open spec fn next(self, reply: ReplyView) -> DeletionModel {
        match self.stage {
            DeletionStage::Resolving => match reply {
                ReplyView::Kind(kind) => self.at(self.resolved(kind)),
                _ => self,
            },
            DeletionStage::Single(leaf) => match leaf_outcome(leaf.next(reply)) {
                Some(outcome) => self.at(DeletionStage::Finished(outcome)),
                None => self.at(DeletionStage::Single(leaf.next(reply))),
            },
            DeletionStage::Listing => match reply {
                ReplyView::Entry(Some(entry)) => self.at(DeletionStage::Probing { entry }),
                ReplyView::Entry(None) => self.at(
                    DeletionStage::Root(self.leaf(self.path, LeafKind::Directory)),
                ),
                _ => self,
            },
            DeletionStage::Probing { entry } => match reply {
                ReplyView::Kind(kind) => self.at(self.probed(entry, kind)),
                _ => self,
            },
            DeletionStage::Entry(leaf) => match leaf.next(reply).result() {
                Some(Ok(())) => self.at(DeletionStage::Listing),
                Some(Err(error)) => self.at(DeletionStage::Finished(OutcomeView::Failed(error))),
                None => self.at(DeletionStage::Entry(leaf.next(reply))),
            },
            DeletionStage::Root(leaf) => match leaf_outcome(leaf.next(reply)) {
                Some(outcome) => self.at(DeletionStage::Finished(outcome)),
                None => self.at(DeletionStage::Root(leaf.next(reply))),
            },
            DeletionStage::Finished(_) => self,
        }
    }

    /// How the removal ended, or `None` while it is under way.
    pub open spec fn outcome(self) -> Option<OutcomeView> {
        match self.stage {
            DeletionStage::Finished(outcome) => Some(outcome),
            _ => None,
        }
    }

    /// What holds of every removal that was begun by [`DeletionModel::start`]
    /// or [`DeletionModel::walk`] and taken forward by
    /// [`DeletionModel::next`]: a leaf that is held is still under way, is
    /// reported as the configuration says, and the leaf of a target removed
    /// directly or as the root of its walk is the target itself.
    pub open spec fn wf(self) -> bool {
        match self.stage {
            DeletionStage::Single(leaf) => {
                &&& leaf.result().is_none()
                &&& leaf.path == self.path
                &&& leaf.verbose == self.config.verbose
            },
            DeletionStage::Entry(leaf) => {
                &&& leaf.result().is_none()
                &&& leaf.verbose == self.config.verbose
            },
            DeletionStage::Root(leaf) => {
                &&& leaf.result().is_none()
                &&& leaf.path == self.path
                &&& leaf.kind == LeafKind::Directory
                &&& leaf.verbose == self.config.verbose
            },
            _ => true,
        }
    }
}

enum Stage {
    Resolving,
    Single(LeafRemoval),
    Listing,
    Probing { entry: String },
    Entry(LeafRemoval),
    Root(LeafRemoval),
    Finished(Outcome),
}

/// The removal of one target, as a state machine.
pub struct Deletion {
    path: String,
    config: Config,
    stage: Stage,
}

impl View for Deletion {
    type V = DeletionModel;

    closed spec fn view(&self) -> DeletionModel {
        DeletionModel {
            path: self.path@,
            config: self.config,
            stage: match self.stage {
                Stage::Resolving => DeletionStage::Resolving,
                Stage::Single(leaf) => DeletionStage::Single(leaf@),
                Stage::Listing => DeletionStage::Listing,
                Stage::Probing { entry } => DeletionStage::Probing { entry: entry@ },
                Stage::Entry(leaf) => DeletionStage::Entry(leaf@),
                Stage::Root(leaf) => DeletionStage::Root(leaf@),
                Stage::Finished(outcome) => DeletionStage::Finished(outcome@),
            },
        }
    }
}

/// The stage of a target whose last leaf has gone as far as `leaf`.
fn conclude(leaf: LeafRemoval, root: bool) -> (stage: Stage)
    ensures
        match leaf_outcome(leaf@) {
            Some(outcome) => stage matches Stage::Finished(o) && o@ == outcome,
            None => if root {
                stage matches Stage::Root(l) && l@ == leaf@
            } else {
                stage matches Stage::Single(l) && l@ == leaf@
            },
        },
{
    match leaf.result() {
        Some(Ok(())) => Stage::Finished(Outcome::Removed),
        Some(Err(error)) => Stage::Finished(Outcome::Failed(error)),
        None => if root {
            Stage::Root(leaf)
        } else {
            Stage::Single(leaf)
        },
    }
}

impl Deletion {
    /// The target.
    pub fn path(&self) -> (path: &String)
        ensures
            path@ == self@.path,
    {
        &self.path
    }

    fn resolved(path: &String, config: &Config, kind: EntryKind) -> (stage: Stage)
        ensures
            (Deletion { path: *path, config: *config, stage })@.stage == DeletionModel::start(
                path@,
                *config,
            ).resolved(kind),
    {
        match kind {
            EntryKind::Missing => if config.force {
                Stage::Finished(Outcome::SkippedMissing)
            } else {
                Stage::Finished(Outcome::Failed(DeleteError::NotFound { path: path.clone() }))
            },
            EntryKind::File => Stage::Single(
                LeafRemoval::start(path.clone(), LeafKind::File, config.verbose),
            ),
            EntryKind::Directory => if config.recursive {
                Stage::Listing
            } else if config.allow_empty_dir {
                Stage::Single(LeafRemoval::start(path.clone(), LeafKind::Directory, config.verbose))
            } else {
                Stage::Finished(Outcome::Failed(DeleteError::IsADirectory { path: path.clone() }))
            },
            EntryKind::Other => Stage::Finished(
                Outcome::Failed(DeleteError::UnsupportedType { path: path.clone() }),
            ),
        }
    }

    /// The request that the caller is to perform next, or `None` once the
    /// removal has ended.
    pub fn pending(&self) -> (request: Option<Request>)
        ensures
            request_view(request) == self@.pending(),
    {
        match &self.stage {
            Stage::Resolving => Some(Request::Stat { path: self.path.clone() }),
            Stage::Single(leaf) => leaf.pending(),
            Stage::Listing => Some(Request::NextEntry { root: self.path.clone() }),
            Stage::Probing { entry } => Some(Request::Stat { path: entry.clone() }),
            Stage::Entry(leaf) => leaf.pending(),
            Stage::Root(leaf) => leaf.pending(),
            Stage::Finished(_) => None,
        }
    }

    /// Hands the caller's `reply` to the removal and gives the removal as it
    /// stands afterwards.
    pub fn step(self, reply: Reply) -> (next: Deletion)
        ensures
            next@ == self@.next(reply@),
    {
        let Deletion { path, config, stage } = self;
        let stage = match stage {
            Stage::Resolving => match reply {
                Reply::Kind(kind) => Self::resolved(&path, &config, kind),
                _ => Stage::Resolving,
            },
            Stage::Single(leaf) => conclude(leaf.step(reply), false),
            Stage::Listing => match reply {
                Reply::Entry(Some(entry)) => Stage::Probing { entry },
                Reply::Entry(None) => Stage::Root(
                    LeafRemoval::start(path.clone(), LeafKind::Directory, config.verbose),
                ),
                _ => Stage::Listing,
            },
            Stage::Probing { entry } => match reply {
                Reply::Kind(EntryKind::File) => Stage::Entry(
                    LeafRemoval::start(entry, LeafKind::File, config.verbose),
                ),
                Reply::Kind(EntryKind::Directory) => Stage::Entry(
                    LeafRemoval::start(entry, LeafKind::Directory, config.verbose),
                ),
                Reply::Kind(_) => Stage::Listing,
                _ => Stage::Probing { entry },
            },
            Stage::Entry(leaf) => {
                let leaf = leaf.step(reply);
                match leaf.result() {
                    Some(Ok(())) => Stage::Listing,
                    Some(Err(error)) => Stage::Finished(Outcome::Failed(error)),
                    None => Stage::Entry(leaf),
                }
            },
            Stage::Root(leaf) => conclude(leaf.step(reply), true),
            Stage::Finished(outcome) => Stage::Finished(outcome),
        };
        Deletion { path, config, stage }
    }

    /// Whether the removal has ended.
    pub fn is_finished(&self) -> (yes: bool)
        ensures
            yes == self@.outcome().is_some(),
    {
        match self.stage {
            Stage::Finished(_) => true,
            _ => false,
        }
    }

    /// How the removal ended, or `None` while it is under way.
    pub fn outcome(&self) -> (outcome: Option<&Outcome>)
        ensures
            match outcome {
                Some(outcome) => self@.outcome() == Some(outcome@),
                None => self@.outcome().is_none(),
            },
    {
        match &self.stage {
            Stage::Finished(outcome) => Some(outcome),
            _ => None,
        }
    }
}

/// Begins the removal of the target `path` under `config`: the engine will
/// look at the target and then remove it as a file, as an empty directory or
/// as a tree, or refuse it, as the configuration says.
pub fn delete_path(path: String, config: &Config) -> (deletion: Deletion)
    ensures
        deletion@ == DeletionModel::start(path@, *config),
{
    Deletion { path, config: *config, stage: Stage::Resolving }
}

/// Begins the recursive removal of the directory `path`: everything below it,
/// contents before their container, then the directory itself.
pub fn remove_dir_recursive(path: String, config: &Config) -> (deletion: Deletion)
    ensures
        deletion@ == DeletionModel::walk(path@, *config),
{
    Deletion { path, config: *config, stage: Stage::Listing }
}

/// Every removal that the engine can reach is well formed, and a well-formed
/// removal waits for a request exactly as long as it has no outcome. A reply
/// that does not answer the pending request changes nothing, and no reply
/// changes the target or the configuration.
pub proof fn lemma_deletion_well_formed(
    path: Seq<char>,
    config: Config,
    deletion: DeletionModel,
    reply: ReplyView,
)
    requires
        deletion.wf(),
    ensures
        DeletionModel::start(path, config).wf(),
        DeletionModel::walk(path, config).wf(),
        deletion.next(reply).wf(),
        deletion.pending().is_none() <==> deletion.outcome().is_some(),
        !answers_pending(deletion.pending(), reply) ==> deletion.next(reply) == deletion,
        deletion.next(reply).path == deletion.path,
        deletion.next(reply).config == deletion.config,
{
}

/// A target is refused or passed over without anything being changed: when
/// the answer to the first look already settles the outcome, that look is the
/// only request the engine has made. A missing target is tolerated exactly
/// under `force`; a directory is refused exactly when neither recursion nor
/// the removal of empty directories was asked for; anything that is neither
/// file nor directory is refused.
pub proof fn lemma_settled_at_first_look(path: Seq<char>, config: Config, kind: EntryKind)
    ensures
        ({
            let begun = DeletionModel::start(path, config);
            let looked = begun.next(ReplyView::Kind(kind));
            &&& begun.pending() == Some(RequestView::Stat { path })
            &&& looked.outcome() == match kind {
                EntryKind::Missing => if config.force {
                    Some(OutcomeView::SkippedMissing)
                } else {
                    Some(OutcomeView::Failed(DeleteErrorView::NotFound { path }))
                },
                EntryKind::File => None,
                EntryKind::Directory => if config.recursive || config.allow_empty_dir {
                    None
                } else {
                    Some(OutcomeView::Failed(DeleteErrorView::IsADirectory { path }))
                },
                EntryKind::Other => Some(
                    OutcomeView::Failed(DeleteErrorView::UnsupportedType { path }),
                ),
            }
            &&& looked.outcome().is_some() ==> looked.pending().is_none()
        }),
{
}

/// A file that the file system lets go is removed, under every configuration:
/// the engine looks at the target, reads its attributes, clears the read-only
/// attribute if it is set, deletes the file, reports it if it is verbose, and
/// ends with `Removed`. If the deletion fails instead, the outcome is a
/// `RemoveError` with the target and the cause.
pub proof fn lemma_file_is_removed(
    path: Seq<char>,
    config: Config,
    read_only: Option<bool>,
    cause: Seq<char>,
)
    ensures
        ({
            let begun = DeletionModel::start(path, config);
            let looked = begun.next(ReplyView::Kind(EntryKind::File));
            let read = looked.next(ReplyView::Attributes(read_only));
            let normalized = if needs_clearing(read_only) {
                read.next(ReplyView::Done(Ok(())))
            } else {
                read
            };
            let deleted = normalized.next(ReplyView::Done(Ok(())));
            let ended = if config.verbose {
                deleted.next(ReplyView::Printed)
            } else {
                deleted
            };
            &&& begun.pending() == Some(RequestView::Stat { path })
            &&& looked.pending() == Some(RequestView::ReadAttributes { path })
            &&& needs_clearing(read_only) ==> read.pending() == Some(
                RequestView::ClearReadOnly { path },
            )
            &&& normalized.pending() == Some(RequestView::RemoveFile { path })
            &&& config.verbose ==> deleted.pending() == Some(
                RequestView::Print { line: removed_file_line(path) },
            )
            &&& ended.outcome() == Some(OutcomeView::Removed)
            &&& normalized.next(ReplyView::Done(Err(cause))).outcome() == Some(
                OutcomeView::Failed(DeleteErrorView::RemoveError { path, cause }),
            )
        }),
{
}

/// A directory given without recursion, but with leave to remove empty
/// directories, is deleted directly, nothing below it being looked at: if the
/// file system lets it go, which it does only if the directory is empty, the
/// outcome is `Removed`; if not, it is a `RemoveError` with the target and the
/// cause.
pub proof fn lemma_empty_dir_is_removed(
    path: Seq<char>,
    config: Config,
    read_only: Option<bool>,
    cause: Seq<char>,
)
    requires
        config.allow_empty_dir,
        !config.recursive,
    ensures
        ({
            let begun = DeletionModel::start(path, config);
            let looked = begun.next(ReplyView::Kind(EntryKind::Directory));
            let read = looked.next(ReplyView::Attributes(read_only));
            let normalized = if needs_clearing(read_only) {
                read.next(ReplyView::Done(Ok(())))
            } else {
                read
            };
            let deleted = normalized.next(ReplyView::Done(Ok(())));
            let ended = if config.verbose {
                deleted.next(ReplyView::Printed)
            } else {
                deleted
            };
            &&& begun.pending() == Some(RequestView::Stat { path })
            &&& looked.pending() == Some(RequestView::ReadAttributes { path })
            &&& needs_clearing(read_only) ==> read.pending() == Some(
                RequestView::ClearReadOnly { path },
            )
            &&& normalized.pending() == Some(RequestView::RemoveDir { path })
            &&& config.verbose ==> deleted.pending() == Some(
                RequestView::Print { line: removed_dir_line(path) },
            )
            &&& ended.outcome() == Some(OutcomeView::Removed)
            &&& normalized.next(ReplyView::Done(Err(cause))).outcome() == Some(
                OutcomeView::Failed(DeleteErrorView::RemoveError { path, cause }),
            )
        }),
{
}

/// What a walk cannot read is passed over, whatever the configuration: the
/// engine asks for the next entry as if nothing had been produced. A removal
/// that is not asking for an entry pays no attention to such a reply.
pub proof fn lemma_unreadable_entry_is_passed_over(deletion: DeletionModel, cause: Seq<char>)
    requires
        deletion.wf(),
    ensures
        deletion.next(ReplyView::Unreadable(cause)) == deletion,
        deletion.stage is Listing ==> deletion.next(ReplyView::Unreadable(cause)).pending()
            == Some(RequestView::NextEntry { root: deletion.path }),
{
    match deletion.stage {
        DeletionStage::Single(leaf) => {
            crate::leaf::lemma_leaf_progress(leaf, ReplyView::Unreadable(cause));
        },
        DeletionStage::Entry(leaf) => {
            crate::leaf::lemma_leaf_progress(leaf, ReplyView::Unreadable(cause));
        },
        DeletionStage::Root(leaf) => {
            crate::leaf::lemma_leaf_progress(leaf, ReplyView::Unreadable(cause));
        },
        _ => {},
    }
}

/// A read-only file inside a tree does not stop the recursive removal: the
/// engine takes up the entry that the walk produced, reads its attributes,
/// clears the read-only attribute, deletes the file, and asks the walk for the
/// next entry.
pub proof fn lemma_read_only_entry_is_removed(path: Seq<char>, config: Config, entry: Seq<char>)
    ensures
        ({
            let listing = DeletionModel::walk(path, config);
            let taken = listing.next(ReplyView::Entry(Some(entry)));
            let looked = taken.next(ReplyView::Kind(EntryKind::File));
            let read = looked.next(ReplyView::Attributes(Some(true)));
            let cleared = read.next(ReplyView::Done(Ok(())));
            let deleted = cleared.next(ReplyView::Done(Ok(())));
            let ended = if config.verbose {
                deleted.next(ReplyView::Printed)
            } else {
                deleted
            };
            &&& listing.pending() == Some(RequestView::NextEntry { root: path })
            &&& taken.pending() == Some(RequestView::Stat { path: entry })
            &&& looked.pending() == Some(RequestView::ReadAttributes { path: entry })
            &&& read.pending() == Some(RequestView::ClearReadOnly { path: entry })
            &&& cleared.pending() == Some(RequestView::RemoveFile { path: entry })
            &&& ended == listing
        }),
{
}

/// The attributes of a path are normalized before the path is deleted,
/// wherever in a removal that happens: the engine comes to ask for the
/// deletion of `path` only from having read attributes of `path` that do not
/// block the deletion, or from having cleared its read-only attribute with
/// success.
pub proof fn lemma_normalizer_precedes_deletion(
    deletion: DeletionModel,
    reply: ReplyView,
    path: Seq<char>,
)
    requires
        deletion.wf(),
        deletion.next(reply) != deletion,
        deletion.next(reply).pending() == Some(RequestView::RemoveFile { path })
            || deletion.next(reply).pending() == Some(RequestView::RemoveDir { path }),
    ensures
        ({
            ||| (deletion.pending() == Some(RequestView::ReadAttributes { path })
                && reply is Attributes && !needs_clearing(reply->Attributes_0))
            ||| (deletion.pending() == Some(RequestView::ClearReadOnly { path })
                && reply is Done && reply->Done_0 is Ok)
        }),
{
}

} // verus!
