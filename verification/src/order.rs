//! The order of a recursive removal: contents first.
//!
//! A directory can only be deleted once it is empty. The engine therefore
//! removes what a walk produces in the order of the walk, one entry at a time,
//! and turns to the directory that was walked only when the walk is exhausted
//! and every entry it took up is gone. This module states that over whole
//! runs of the engine, and proves it.

use crate::config::Config;
use crate::engine::{DeletionModel, DeletionStage};
use crate::error::OutcomeView;
use crate::protocol::{EntryKind, ReplyView};
use vstd::prelude::*;

verus! {

impl DeletionModel {
    /// The removal after `replies` were handed to it, one after the other.
    pub open spec fn run(self, replies: Seq<ReplyView>) -> DeletionModel
        decreases replies.len(),
    {
        if replies.len() == 0 {
            self
        } else {
            self.run(replies.drop_last()).next(replies.last())
        }
    }

    /// The entries that the engine has taken up in the course of `replies`, in
    /// order: those that the walk produced and that were then found to be a
    /// file or a directory.
    pub open spec fn taken_up(self, replies: Seq<ReplyView>) -> Seq<Seq<char>>
        decreases replies.len(),
    {
        if replies.len() == 0 {
            Seq::empty()
        } else {
            let earlier = self.taken_up(replies.drop_last());
            match (self.run(replies.drop_last()).stage, replies.last()) {
                (DeletionStage::Probing { entry }, ReplyView::Kind(EntryKind::File)) => earlier.push(
                    entry,
                ),
                (
                    DeletionStage::Probing { entry },
                    ReplyView::Kind(EntryKind::Directory),
                ) => earlier.push(entry),
                _ => earlier,
            }
        }
    }

    /// The entries that were deleted in the course of `replies`, in order:
    /// those for which the engine asked for the deletion and was answered
    /// that it was done.
    pub open spec fn removed(self, replies: Seq<ReplyView>) -> Seq<Seq<char>>
        decreases replies.len(),
    {
        if replies.len() == 0 {
            Seq::empty()
        } else {
            let earlier = self.removed(replies.drop_last());
            match (self.run(replies.drop_last()).stage, replies.last()) {
                (DeletionStage::Entry(leaf), ReplyView::Done(Ok(_))) => if leaf.pending() == Some(
                    leaf.deletion(),
                ) {
                    earlier.push(leaf.path)
                } else {
                    earlier
                },
                _ => earlier,
            }
        }
    }

    /// Whether the engine is about to look further: it asks the walk for the
    /// next entry, looks at the entry it was given, or has turned to the
    /// directory that was walked.
    pub open spec fn between_entries(self) -> bool {
        self.stage is Listing || self.stage is Probing || self.stage is Root
    }

    /// What links the entries taken up and the entries removed in a removal
    /// that has come to `self`: all that were taken up are removed, or all
    /// but the last, which is in hand.
    pub open spec fn in_order(self, taken_up: Seq<Seq<char>>, removed: Seq<Seq<char>>) -> bool {
        match self.stage {
            DeletionStage::Resolving => taken_up.len() == 0 && removed.len() == 0,
            DeletionStage::Single(_) => taken_up.len() == 0 && removed.len() == 0,
            DeletionStage::Listing => removed =~= taken_up,
            DeletionStage::Probing { .. } => removed =~= taken_up,
            DeletionStage::Root(_) => removed =~= taken_up,
            DeletionStage::Entry(leaf) => if leaf.stage is Reporting {
                removed =~= taken_up
            } else {
                taken_up =~= removed.push(leaf.path)
            },
            DeletionStage::Finished(OutcomeView::Failed(_)) => removed =~= taken_up || (
            taken_up.len() > 0 && removed =~= taken_up.drop_last()),
            DeletionStage::Finished(_) => removed =~= taken_up,
        }
    }
}

proof fn lemma_in_order(begun: DeletionModel, replies: Seq<ReplyView>)
    requires
        begun.stage is Resolving || begun.stage is Listing,
    ensures
        begun.run(replies).wf(),
        begun.run(replies).in_order(begun.taken_up(replies), begun.removed(replies)),
    decreases replies.len(),
{
    if replies.len() > 0 {
        let earlier = replies.drop_last();
        lemma_in_order(begun, earlier);
        let before = begun.run(earlier);
        let taken_up = begun.taken_up(earlier);
        let removed = begun.removed(earlier);
        assert(before.in_order(taken_up, removed));
        match before.stage {
            DeletionStage::Entry(leaf) => {
                if !(leaf.stage is Reporting) {
                    assert(removed.push(leaf.path).drop_last() =~= removed);
                }
            },
            _ => {},
        }
    }
}

/// Contents first. In every run of a removal, however the caller answers:
/// the entries are deleted in the order in which they were taken up, none is
/// left out, and at most the one in hand is not yet deleted. Whenever the
/// engine asks for the next entry or looks at it, every entry taken up before
/// is already deleted: so what a walk produces ahead of a directory, as it
/// does the contents of that directory, is gone before the directory is
/// attempted. When the engine turns to the directory that was walked, all
/// that was taken up below it is deleted; and the removal ends with `Removed`
/// only if nothing that was taken up is left.
pub proof fn lemma_contents_first(begun: DeletionModel, replies: Seq<ReplyView>)
    requires
        begun.stage is Resolving || begun.stage is Listing,
    ensures
        ({
            let now = begun.run(replies);
            let taken_up = begun.taken_up(replies);
            let removed = begun.removed(replies);
            &&& removed.len() <= taken_up.len() <= removed.len() + 1
            &&& removed == taken_up.take(removed.len() as int)
            &&& now.between_entries() ==> removed == taken_up
            &&& now.outcome() == Some(OutcomeView::Removed) ==> removed == taken_up
        }),
{
    lemma_in_order(begun, replies);
    let taken_up = begun.taken_up(replies);
    let removed = begun.removed(replies);
    if removed =~= taken_up {
        assert(taken_up.take(removed.len() as int) =~= taken_up);
    } else {
        assert(taken_up.len() == removed.len() + 1);
        assert(taken_up.take(removed.len() as int) =~= removed);
    }
}

} // verus!
