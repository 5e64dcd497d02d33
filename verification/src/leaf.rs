//! The leaf remover: the removal of one file or one empty directory.
//!
//! A removal first normalizes the attributes of its path (reads them, and
//! clears the read-only attribute if it is set), then deletes the path, then
//! reports the removal if the configuration is verbose.

use crate::config::Config;
use crate::error::{DeleteError, DeleteErrorView};
use crate::protocol::{answers_pending, request_view, Reply, ReplyView, Request, RequestView};
use crate::text::{removed_dir_line, removed_dir_text, removed_file_line, removed_file_text};
use vstd::prelude::*;

verus! {

/// What a leaf removal deletes.
#[derive(Clone, Copy, Debug, PartialEq, Eq, Structural)]
pub enum LeafKind {
    /// A file.
    File,
    /// A directory, which must be empty by the time it is deleted.
    Directory,
}

/// Whether attributes that read as `read_only` block a deletion and must be
/// cleared first. Attributes that cannot be read are left alone: the deletion
/// itself will tell.
pub open spec fn needs_clearing(read_only: Option<bool>) -> bool {
    read_only == Some(true)
}

/// Where a leaf removal stands.
pub enum LeafStage {
    /// The attributes of the path are being read.
    Reading,
    /// The read-only attribute is being cleared.
    Clearing,
    /// The path is being deleted.
    Deleting,
    /// The removal is being reported.
    Reporting,
    /// The removal has ended, with the cause of its failure if it failed.
    Finished(Result<(), Seq<char>>),
}

/// The mathematical value of a [`LeafRemoval`].
pub struct LeafModel {
    pub path: Seq<char>,
    pub kind: LeafKind,
    pub verbose: bool,
    pub stage: LeafStage,
}

impl LeafModel {
    /// A removal of `path` that has not asked for anything yet.
    pub open spec fn start(path: Seq<char>, kind: LeafKind, verbose: bool) -> LeafModel {
        LeafModel { path, kind, verbose, stage: LeafStage::Reading }
    }

    /// The request that deletes the path.
    pub open spec fn deletion(self) -> RequestView {
        match self.kind {
            LeafKind::File => RequestView::RemoveFile { path: self.path },
            LeafKind::Directory => RequestView::RemoveDir { path: self.path },
        }
    }

    /// The line that reports the removal.
    pub open spec fn report(self) -> Seq<char> {
        match self.kind {
            LeafKind::File => removed_file_line(self.path),
            LeafKind::Directory => removed_dir_line(self.path),
        }
    }

    /// The request that the removal waits for, or `None` once it has ended.
    pub open spec fn pending(self) -> Option<RequestView> {
        match self.stage {
            LeafStage::Reading => Some(RequestView::ReadAttributes { path: self.path }),
            LeafStage::Clearing => Some(RequestView::ClearReadOnly { path: self.path }),
            LeafStage::Deleting => Some(self.deletion()),
            LeafStage::Reporting => Some(RequestView::Print { line: self.report() }),
            LeafStage::Finished(_) => None,
        }
    }

    /// The removal at its given stage.
    pub open spec fn at(self, stage: LeafStage) -> LeafModel {
        LeafModel { stage, ..self }
    }

    /// The removal after `reply` was handed to it. A reply that does not
    /// answer the pending request changes nothing.
    pub open spec fn next(self, reply: ReplyView) -> LeafModel {
        match (self.stage, reply) {
            (LeafStage::Reading, ReplyView::Attributes(read_only)) => if needs_clearing(
                read_only,
            ) {
                self.at(LeafStage::Clearing)
            } else {
                self.at(LeafStage::Deleting)
            },
            (LeafStage::Clearing, ReplyView::Done(Ok(()))) => self.at(LeafStage::Deleting),
            (LeafStage::Clearing, ReplyView::Done(Err(cause))) => self.at(
                LeafStage::Finished(Err(cause)),
            ),
            (LeafStage::Deleting, ReplyView::Done(Ok(()))) => if self.verbose {
                self.at(LeafStage::Reporting)
            } else {
                self.at(LeafStage::Finished(Ok(())))
            },
            (LeafStage::Deleting, ReplyView::Done(Err(cause))) => self.at(
                LeafStage::Finished(Err(cause)),
            ),
            (LeafStage::Reporting, ReplyView::Printed) => self.at(LeafStage::Finished(Ok(()))),
            _ => self,
        }
    }

    /// How the removal ended, or `None` while it is under way. A failure names
    /// the path and the cause that the file system gave.
    pub open spec fn result(self) -> Option<Result<(), DeleteErrorView>> {
        match self.stage {
            LeafStage::Finished(Ok(())) => Some(Ok(())),
            LeafStage::Finished(Err(cause)) => Some(
                Err(DeleteErrorView::RemoveError { path: self.path, cause }),
            ),
            _ => None,
        }
    }

    /// How far the removal has come: every answered request raises it.
    pub open spec fn rank(self) -> nat {
        match self.stage {
            LeafStage::Reading => 0,
            LeafStage::Clearing => 1,
            LeafStage::Deleting => 2,
            LeafStage::Reporting => 3,
            LeafStage::Finished(_) => 4,
        }
    }
}

enum Stage {
    Reading,
    Clearing,
    Deleting,
    Reporting,
    Finished(Result<(), String>),
}

/// The removal of one file or one empty directory, as a state machine.
pub struct LeafRemoval {
    path: String,
    kind: LeafKind,
    verbose: bool,
    stage: Stage,
}

impl View for LeafRemoval {
    type V = LeafModel;

    closed spec fn view(&self) -> LeafModel {
        LeafModel {
            path: self.path@,
            kind: self.kind,
            verbose: self.verbose,
            stage: match self.stage {
                Stage::Reading => LeafStage::Reading,
                Stage::Clearing => LeafStage::Clearing,
                Stage::Deleting => LeafStage::Deleting,
                Stage::Reporting => LeafStage::Reporting,
                Stage::Finished(Ok(())) => LeafStage::Finished(Ok(())),
                Stage::Finished(Err(cause)) => LeafStage::Finished(Err(cause@)),
            },
        }
    }
}

/// Tells whether attributes that read as `read_only` must be cleared before
/// the path can be deleted.
pub fn must_clear(read_only: Option<bool>) -> (yes: bool)
    ensures
        yes == needs_clearing(read_only),
{
    match read_only {
        Some(true) => true,
        _ => false,
    }
}

impl LeafRemoval {
    /// Begins the removal of `path`.
    pub fn start(path: String, kind: LeafKind, verbose: bool) -> (removal: LeafRemoval)
        ensures
            removal@ == LeafModel::start(path@, kind, verbose),
    {
        LeafRemoval { path, kind, verbose, stage: Stage::Reading }
    }

    /// The path that is being removed.
    pub fn path(&self) -> (path: &String)
        ensures
            path@ == self@.path,
    {
        &self.path
    }

    /// The request that the caller is to perform next, or `None` once the
    /// removal has ended.
    pub fn pending(&self) -> (request: Option<Request>)
        ensures
            request_view(request) == self@.pending(),
    {
        match self.stage {
            Stage::Reading => Some(Request::ReadAttributes { path: self.path.clone() }),
            Stage::Clearing => Some(Request::ClearReadOnly { path: self.path.clone() }),
            Stage::Deleting => match self.kind {
                LeafKind::File => Some(Request::RemoveFile { path: self.path.clone() }),
                LeafKind::Directory => Some(Request::RemoveDir { path: self.path.clone() }),
            },
            Stage::Reporting => match self.kind {
                LeafKind::File => Some(Request::Print { line: removed_file_text(&self.path) }),
                LeafKind::Directory => Some(Request::Print { line: removed_dir_text(&self.path) }),
            },
            Stage::Finished(_) => None,
        }
    }

    /// Hands the caller's `reply` to the removal and gives the removal as it
    /// stands afterwards.
    pub fn step(self, reply: Reply) -> (next: LeafRemoval)
        ensures
            next@ == self@.next(reply@),
    {
        let LeafRemoval { path, kind, verbose, stage } = self;
        let stage = match (stage, reply) {
            (Stage::Reading, Reply::Attributes(read_only)) => if must_clear(read_only) {
                Stage::Clearing
            } else {
                Stage::Deleting
            },
            (Stage::Clearing, Reply::Done(Ok(()))) => Stage::Deleting,
            (Stage::Clearing, Reply::Done(Err(cause))) => Stage::Finished(Err(cause)),
            (Stage::Deleting, Reply::Done(Ok(()))) => if verbose {
                Stage::Reporting
            } else {
                Stage::Finished(Ok(()))
            },
            (Stage::Deleting, Reply::Done(Err(cause))) => Stage::Finished(Err(cause)),
            (Stage::Reporting, Reply::Printed) => Stage::Finished(Ok(())),
            (stage, _) => stage,
        };
        LeafRemoval { path, kind, verbose, stage }
    }

    /// Whether the removal has ended.
    pub fn is_finished(&self) -> (yes: bool)
        ensures
            yes == self@.result().is_some(),
    {
        match self.stage {
            Stage::Finished(_) => true,
            _ => false,
        }
    }

    /// How the removal ended, or `None` while it is under way.
    pub fn result(&self) -> (result: Option<Result<(), DeleteError>>)
        ensures
            match result {
                Some(Ok(())) => self@.result() == Some(Ok::<(), DeleteErrorView>(())),
                Some(Err(error)) => self@.result() == Some(Err::<(), DeleteErrorView>(error@)),
                None => self@.result().is_none(),
            },
    {
        match &self.stage {
            Stage::Finished(Ok(())) => Some(Ok(())),
            Stage::Finished(Err(cause)) => Some(
                Err(DeleteError::RemoveError { path: self.path.clone(), cause: cause.clone() }),
            ),
            _ => None,
        }
    }
}

/// Begins the removal of the file `path`: its attributes are normalized, then
/// it is deleted.
pub fn remove_file_force(path: String, config: &Config) -> (removal: LeafRemoval)
    ensures
        removal@ == LeafModel::start(path@, LeafKind::File, config.verbose),
{
    LeafRemoval::start(path, LeafKind::File, config.verbose)
}

/// Begins the removal of the directory `path`, which succeeds only if the
/// directory is empty when it is deleted.
pub fn remove_dir_force(path: String, config: &Config) -> (removal: LeafRemoval)
    ensures
        removal@ == LeafModel::start(path@, LeafKind::Directory, config.verbose),
{
    LeafRemoval::start(path, LeafKind::Directory, config.verbose)
}

/// Every answered request moves a leaf removal forward, and nothing else moves
/// it: so a removal ends after at most four requests, and asks for none of
/// them twice.
pub proof fn lemma_leaf_progress(removal: LeafModel, reply: ReplyView)
    ensures
        answers_pending(removal.pending(), reply) ==> removal.next(reply).rank()
            > removal.rank(),
        !answers_pending(removal.pending(), reply) ==> removal.next(reply) == removal,
        removal.rank() <= 4,
        removal.rank() == 4 <==> removal.pending().is_none(),
        removal.pending().is_none() <==> removal.result().is_some(),
        removal.next(reply).path == removal.path,
        removal.next(reply).kind == removal.kind,
        removal.next(reply).verbose == removal.verbose,
{
}

/// The attributes are normalized before the deletion, once: a removal turns to
/// deleting its path only from having read attributes that do not block the
/// deletion, or from having cleared the read-only attribute with success; and
/// it never turns back to reading or clearing them.
pub proof fn lemma_normalized_before_deletion(removal: LeafModel, reply: ReplyView)
    requires
        removal.next(reply) != removal,
    ensures
        removal.next(reply).pending() == Some(removal.deletion()) ==> {
            ||| (removal.pending() == Some(RequestView::ReadAttributes { path: removal.path })
                && reply is Attributes && !needs_clearing(reply->Attributes_0))
            ||| (removal.pending() == Some(RequestView::ClearReadOnly { path: removal.path })
                && reply is Done && reply->Done_0 is Ok)
        },
        removal.next(reply).stage is Clearing ==> removal.stage is Reading && reply
            == ReplyView::Attributes(Some(true)),
        !(removal.next(reply).stage is Reading),
{
}

} // verus!
