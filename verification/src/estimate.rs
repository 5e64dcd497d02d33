//! The count estimator: how many entries a run would remove.
//!
//! The estimate only serves to decide whether the run must be confirmed as a
//! whole. It is no plan: what is removed is decided again, target by target,
//! when the run gets there.

use crate::config::Config;
use crate::error::{DeleteError, DeleteErrorView};
use crate::protocol::{paths_view, request_view, EntryKind, Reply, ReplyView, Request, RequestView};
use vstd::prelude::*;

verus! {

/// `count`, or the largest `usize` if `count` is larger than that.
pub open spec fn saturate(count: nat) -> usize {
    if count > usize::MAX {
        usize::MAX
    } else {
        count as usize
    }
}

/// The number of entries that one target adds to the estimate: a file counts
/// as one; a directory as the `entries` of its tree, itself included, when the
/// run is recursive, and as one when it is not; anything else as none.
pub open spec fn contribution(kind: EntryKind, recursive: bool, entries: usize) -> nat {
    match kind {
        EntryKind::File => 1,
        EntryKind::Directory => if recursive {
            entries as nat
        } else {
            1
        },
        _ => 0,
    }
}

/// Where an estimate stands.
pub enum EstimatorStage {
    /// The target in hand is being looked at.
    Probing,
    /// The tree of the target in hand is being counted.
    Counting,
    /// The estimate has ended.
    Finished(Result<usize, DeleteErrorView>),
}

/// The mathematical value of an [`Estimator`].
pub struct EstimatorModel {
    pub targets: Seq<Seq<char>>,
    pub config: Config,
    /// The position of the target in hand; the targets before it are counted.
    pub index: nat,
    /// What the targets before the one in hand add up to.
    pub total: usize,
    pub stage: EstimatorStage,
}

impl EstimatorModel {
    /// The estimate with `total` counted for the targets before `index`: it
    /// turns to the target at `index`, or ends if there is none.
    pub open spec fn turn_to(self, index: nat, total: usize) -> EstimatorModel {
        EstimatorModel {
            index,
            total,
            stage: if index < self.targets.len() {
                EstimatorStage::Probing
            } else {
                EstimatorStage::Finished(Ok(total))
            },
            ..self
        }
    }

    /// The estimate for `targets` before anything was asked.
    pub open spec fn start(targets: Seq<Seq<char>>, config: Config) -> EstimatorModel {
        (EstimatorModel {
            targets,
            config,
            index: 0,
            total: 0,
            stage: EstimatorStage::Probing,
        }).turn_to(0, 0)
    }

    /// The target in hand.
    pub open spec fn current(self) -> Seq<char> {
        self.targets[self.index as int]
    }

    /// The estimate once the target in hand was found to add `more` entries.
    pub open spec fn counted(self, more: nat) -> EstimatorModel {
        self.turn_to((self.index + 1) as nat, saturate((self.total + more) as nat))
    }

    /// The request that the estimate waits for, or `None` once it has ended.
    pub open spec fn pending(self) -> Option<RequestView> {
        match self.stage {
            EstimatorStage::Probing => Some(RequestView::Stat { path: self.current() }),
            EstimatorStage::Counting => Some(RequestView::CountEntries { root: self.current() }),
            EstimatorStage::Finished(_) => None,
        }
    }

    /// The estimate after `reply` was handed to it. A reply that does not
    /// answer the pending request changes nothing.
    pub open spec fn next(self, reply: ReplyView) -> EstimatorModel {
        match (self.stage, reply) {
            (EstimatorStage::Probing, ReplyView::Kind(EntryKind::Missing)) => if self.config.force {
                self.counted(0)
            } else {
                EstimatorModel {
                    stage: EstimatorStage::Finished(
                        Err(DeleteErrorView::NotFound { path: self.current() }),
                    ),
                    ..self
                }
            },
            (EstimatorStage::Probing, ReplyView::Kind(EntryKind::Directory)) => if self.config.recursive {
                EstimatorModel { stage: EstimatorStage::Counting, ..self }
            } else {
                self.counted(1)
            },
            (EstimatorStage::Probing, ReplyView::Kind(kind)) => self.counted(
                contribution(kind, self.config.recursive, 0),
            ),
            (EstimatorStage::Counting, ReplyView::Count(entries)) => self.counted(entries as nat),
            _ => self,
        }
    }

    /// The estimate, or the missing target that it stopped at, or `None`
    /// while it is under way.
    pub open spec fn result(self) -> Option<Result<usize, DeleteErrorView>> {
        match self.stage {
            EstimatorStage::Finished(result) => Some(result),
            _ => None,
        }
    }

    /// What holds of every estimate that was begun by
    /// [`EstimatorModel::start`] and taken forward by
    /// [`EstimatorModel::next`]: while it is under way, a target is in hand; and
    /// it has not failed if the run is forced.
    pub open spec fn wf(self) -> bool {
        &&& !(self.stage is Finished) ==> self.index < self.targets.len()
        &&& self.stage matches EstimatorStage::Finished(Err(_)) ==> !self.config.force
    }
}

enum Stage {
    Probing,
    Counting,
    Finished(Result<usize, DeleteError>),
}

/// The estimate of a run, as a state machine.
pub struct Estimator {
    targets: Vec<String>,
    config: Config,
    index: usize,
    total: usize,
    stage: Stage,
}

impl View for Estimator {
    type V = EstimatorModel;

    closed spec fn view(&self) -> EstimatorModel {
        EstimatorModel {
            targets: paths_view(self.targets@),
            config: self.config,
            index: self.index as nat,
            total: self.total,
            stage: match self.stage {
                Stage::Probing => EstimatorStage::Probing,
                Stage::Counting => EstimatorStage::Counting,
                Stage::Finished(Ok(total)) => EstimatorStage::Finished(Ok(total)),
                Stage::Finished(Err(error)) => EstimatorStage::Finished(Err(error@)),
            },
        }
    }
}

impl Estimator {
    #[verifier::type_invariant]
    spec fn inv(self) -> bool {
        !(self.stage is Finished) ==> self.index < self.targets.len()
    }

    fn turn_to(targets: Vec<String>, config: Config, index: usize, total: usize) -> (next:
        Estimator)
        ensures
            next@ == (EstimatorModel {
                targets: paths_view(targets@),
                config,
                index: 0,
                total: 0,
                stage: EstimatorStage::Probing,
            }).turn_to(index as nat, total),
    {
        let stage = if index < targets.len() {
            Stage::Probing
        } else {
            Stage::Finished(Ok(total))
        };
        Estimator { targets, config, index, total, stage }
    }

    fn counted(self, more: usize) -> (next: Estimator)
        requires
            !(self@.stage is Finished),
        ensures
            next@ == self@.counted(more as nat),
    {
        proof {
            use_type_invariant(&self);
        }
        let Estimator { targets, config, index, total, stage: _ } = self;
        Self::turn_to(targets, config, index + 1, total.saturating_add(more))
    }

    /// The request that the caller is to perform next, or `None` once the
    /// estimate has ended.
    pub fn pending(&self) -> (request: Option<Request>)
        ensures
            request_view(request) == self@.pending(),
    {
        proof {
            use_type_invariant(self);
        }
        match self.stage {
            Stage::Probing => Some(Request::Stat { path: self.targets[self.index].clone() }),
            Stage::Counting => Some(
                Request::CountEntries { root: self.targets[self.index].clone() },
            ),
            Stage::Finished(_) => None,
        }
    }

    /// Hands the caller's `reply` to the estimate and gives the estimate as it
    /// stands afterwards.
    pub fn step(self, reply: Reply) -> (next: Estimator)
        ensures
            next@ == self@.next(reply@),
    {
        proof {
            use_type_invariant(&self);
        }
        match (&self.stage, reply) {
            (Stage::Probing, Reply::Kind(EntryKind::Missing)) => if self.config.force {
                self.counted(0)
            } else {
                let path = self.targets[self.index].clone();
                Estimator {
                    stage: Stage::Finished(Err(DeleteError::NotFound { path })),
                    ..self
                }
            },
            (Stage::Probing, Reply::Kind(EntryKind::Directory)) => if self.config.recursive {
                Estimator { stage: Stage::Counting, ..self }
            } else {
                self.counted(1)
            },
            (Stage::Probing, Reply::Kind(EntryKind::File)) => self.counted(1),
            (Stage::Probing, Reply::Kind(EntryKind::Other)) => self.counted(0),
            (Stage::Counting, Reply::Count(entries)) => self.counted(entries),
            _ => self,
        }
    }

    /// Whether the estimate has ended.
    pub fn is_finished(&self) -> (yes: bool)
        ensures
            yes == self@.result().is_some(),
    {
        match self.stage {
            Stage::Finished(_) => true,
            _ => false,
        }
    }

    /// The estimate, or the missing target that it stopped at, or `None`
    /// while it is under way.
    pub fn result(&self) -> (result: Option<Result<usize, DeleteError>>)
        ensures
            match result {
                Some(Ok(total)) => self@.result() == Some(Ok::<usize, DeleteErrorView>(total)),
                Some(Err(error)) => self@.result() == Some(Err::<usize, DeleteErrorView>(error@)),
                None => self@.result().is_none(),
            },
    {
        match &self.stage {
            Stage::Finished(Ok(total)) => Some(Ok(*total)),
            Stage::Finished(Err(error)) => Some(Err(error.duplicate())),
            _ => None,
        }
    }
}

/// Begins the estimate of how many entries the removal of `paths` under
/// `config` would remove.
pub fn count_deletions(paths: Vec<String>, config: &Config) -> (estimator: Estimator)
    ensures
        estimator@ == EstimatorModel::start(paths_view(paths@), *config),
{
    Estimator::turn_to(paths, *config, 0, 0)
}

/// What the caller finds when it looks at one target: its kind and, for a
/// directory in a recursive run, the number of entries in its tree.
pub struct Observation {
    pub kind: EntryKind,
    pub entries: usize,
}

/// The sum of what the observed targets add to the estimate.
pub open spec fn sum_of(seen: Seq<Observation>, recursive: bool) -> nat
    decreases seen.len(),
{
    if seen.len() == 0 {
        0
    } else {
        sum_of(seen.drop_last(), recursive) + contribution(
            seen.last().kind,
            recursive,
            seen.last().entries,
        )
    }
}

/// Whether none of the first `count` observed targets is missing.
pub open spec fn all_present(seen: Seq<Observation>, count: int) -> bool {
    forall|i: int| 0 <= i < count && i < seen.len() ==> (#[trigger] seen[i]).kind
        != EntryKind::Missing
}

impl EstimatorModel {
    /// The estimate after the caller has looked at the target in hand and
    /// found `seen`: the kind is handed over, and the count of entries too if
    /// the estimate then asks for it.
    pub open spec fn observe(self, seen: Observation) -> EstimatorModel {
        let looked = self.next(ReplyView::Kind(seen.kind));
        if looked.stage is Counting {
            looked.next(ReplyView::Count(seen.entries))
        } else {
            looked
        }
    }

    /// The estimate after the caller has looked at one target after the other
    /// and found `seen`.
    pub open spec fn observe_all(self, seen: Seq<Observation>) -> EstimatorModel
        decreases seen.len(),
    {
        if seen.len() == 0 {
            self
        } else {
            self.observe_all(seen.drop_last()).observe(seen.last())
        }
    }
}

proof fn lemma_estimate_prefix(
    targets: Seq<Seq<char>>,
    config: Config,
    seen: Seq<Observation>,
    count: int,
)
    requires
        0 <= count <= seen.len() <= targets.len(),
    ensures
        ({
            let begun = EstimatorModel::start(targets, config);
            let now = begun.observe_all(seen.take(count));
            &&& config.force || all_present(seen, count) ==> now == begun.turn_to(
                count as nat,
                saturate(sum_of(seen.take(count), config.recursive)),
            )
            &&& forall|i: int|
                0 <= i < count && !config.force && all_present(seen, i) && (#[trigger] seen[i]).kind
                    == EntryKind::Missing ==> now.result() == Some(
                    Err::<usize, DeleteErrorView>(DeleteErrorView::NotFound { path: targets[i] }),
                )
        }),
    decreases count,
{
    let begun = EstimatorModel::start(targets, config);
    if count > 0 {
        lemma_estimate_prefix(targets, config, seen, count - 1);
        let shorter = seen.take(count - 1);
        assert(seen.take(count).drop_last() =~= shorter);
        assert(seen.take(count).last() == seen[count - 1]);
        let before = begun.observe_all(shorter);
        let now = begun.observe_all(seen.take(count));
        assert(now == before.observe(seen[count - 1]));
        if config.force || all_present(seen, count - 1) {
            assert(before.stage is Probing);
            assert(before.index == count - 1);
        }
        assert forall|i: int|
            0 <= i < count && !config.force && all_present(seen, i) && (#[trigger] seen[i]).kind
                == EntryKind::Missing implies now.result() == Some(
            Err::<usize, DeleteErrorView>(DeleteErrorView::NotFound { path: targets[i] }),
        ) by {
            if i < count - 1 {
                assert(before.result() == Some(
                    Err::<usize, DeleteErrorView>(DeleteErrorView::NotFound { path: targets[i] }),
                ));
            } else {
                assert(all_present(seen, count - 1));
            }
        }
    } else {
        assert(seen.take(0).len() == 0);
    }
}

/// The estimate is the sum of what the targets add, as far as a `usize` can
/// hold it: when the caller has looked at every target in turn, the estimate
/// has ended with that sum, provided that no target is missing or that the
/// run is forced. Otherwise it has ended with `NotFound` for the first
/// missing target.
pub proof fn lemma_estimate_is_sum(
    targets: Seq<Seq<char>>,
    config: Config,
    seen: Seq<Observation>,
)
    requires
        seen.len() == targets.len(),
    ensures
        ({
            let ended = EstimatorModel::start(targets, config).observe_all(seen);
            &&& config.force || all_present(seen, seen.len() as int) ==> ended.result() == Some(
                Ok::<usize, DeleteErrorView>(saturate(sum_of(seen, config.recursive))),
            )
            &&& forall|i: int|
                0 <= i < seen.len() && !config.force && all_present(seen, i) && (
                #[trigger] seen[i]).kind == EntryKind::Missing ==> ended.result() == Some(
                    Err::<usize, DeleteErrorView>(DeleteErrorView::NotFound { path: targets[i] }),
                )
        }),
{
    lemma_estimate_prefix(targets, config, seen, seen.len() as int);
    assert(seen.take(seen.len() as int) =~= seen);
}

/// Every estimate that can be reached is well formed: one that is under way
/// has a target in hand, and a forced one never fails. No reply changes the
/// targets or the configuration.
pub proof fn lemma_estimate_well_formed(
    targets: Seq<Seq<char>>,
    config: Config,
    estimate: EstimatorModel,
    reply: ReplyView,
)
    requires
        estimate.wf(),
    ensures
        EstimatorModel::start(targets, config).wf(),
        estimate.next(reply).wf(),
        estimate.next(reply).targets == estimate.targets,
        estimate.next(reply).config == estimate.config,
        estimate.pending().is_none() <==> estimate.result().is_some(),
{
}

} // verus!
