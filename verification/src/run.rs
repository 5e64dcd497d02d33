//! A whole run: every target in turn, under one configuration.
//!
//! In the once-for-all mode the run first estimates how much it would remove
//! and, if that is much or recursive, asks once; a "no" ends the run before
//! any target is touched. Then each target is checked, asked about in the
//! ask-every-time mode, and removed. Without `force` the first missing target
//! or failed removal ends the run with that error. With `force` missing
//! targets are passed over and failures are recorded, and the run goes on to
//! the next target: a forced run never ends with an error.

use crate::config::{Config, Interactive};
use crate::engine::{delete_path, Deletion, DeletionModel};
use crate::error::{DeleteError, DeleteErrorView, Outcome, OutcomeView};
use crate::estimate::{count_deletions, Estimator, EstimatorModel};
use crate::protocol::{paths_view, request_view, EntryKind, Reply, ReplyView, Request, RequestView};
use crate::text::{aggregate_prompt, aggregate_prompt_text, item_prompt, item_prompt_text};
use vstd::prelude::*;

verus! {

/// Where a run stands.
pub enum RunStage {
    /// The entries that the run would remove are being counted.
    Estimating(EstimatorModel),
    /// The user is being asked whether to remove `count` entries.
    Confirming { count: usize },
    /// The target in hand is being checked for existence.
    Checking,
    /// The user is being asked whether to remove the target in hand.
    Asking,
    /// The target in hand is being removed.
    Deleting(DeletionModel),
    /// The run has ended, with the error that ended it if one did.
    Finished(Result<(), DeleteErrorView>),
}

/// The mathematical value of a [`Run`].
pub struct RunModel {
    pub targets: Seq<Seq<char>>,
    pub config: Config,
    /// The position of the target in hand; the targets before it are dealt
    /// with.
    pub index: nat,
    /// How the targets that were attempted have ended, in order. A target
    /// that the user declined leaves no outcome.
    pub outcomes: Seq<OutcomeView>,
    pub stage: RunStage,
}

impl RunModel {
    /// The run at the given stage.
    pub open spec fn at(self, stage: RunStage) -> RunModel {
        RunModel { stage, ..self }
    }

    /// The run as it turns to the target at `index`, or ends in success if
    /// there is none.
    pub open spec fn turn_to(self, index: nat) -> RunModel {
        RunModel {
            index,
            stage: if index < self.targets.len() {
                RunStage::Checking
            } else {
                RunStage::Finished(Ok(()))
            },
            ..self
        }
    }

    /// The run once its estimate has ended with `result`: a missing target
    /// ends the run; an estimate that calls for it is put to the user; any
    /// other lets the run begin with the first target.
    pub open spec fn estimated(self, result: Result<usize, DeleteErrorView>) -> RunModel {
        match result {
            Err(error) => self.at(RunStage::Finished(Err(error))),
            Ok(count) => if self.config.spec_needs_aggregate_prompt(count) {
                self.at(RunStage::Confirming { count })
            } else {
                self.turn_to(0)
            },
        }
    }

    /// The run over `targets` before anything was asked.
    pub open spec fn start(targets: Seq<Seq<char>>, config: Config) -> RunModel {
        let fresh = RunModel {
            targets,
            config,
            index: 0,
            outcomes: Seq::empty(),
            stage: RunStage::Checking,
        };
        if config.interactive == Interactive::OnceAggregate {
            let estimate = EstimatorModel::start(targets, config);
            match estimate.result() {
                Some(result) => fresh.estimated(result),
                None => fresh.at(RunStage::Estimating(estimate)),
            }
        } else {
            fresh.turn_to(0)
        }
    }

    /// The target in hand.
    pub open spec fn current(self) -> Seq<char> {
        self.targets[self.index as int]
    }

    /// The run once the target in hand has ended with `outcome`: the outcome
    /// is recorded; a failure ends an unforced run with its error; otherwise
    /// the run turns to the next target.
    pub open spec fn settled(self, outcome: OutcomeView) -> RunModel {
        let recorded = RunModel { outcomes: self.outcomes.push(outcome), ..self };
        match outcome {
            OutcomeView::Failed(error) => if self.config.force {
                recorded.turn_to(self.index + 1)
            } else {
                recorded.at(RunStage::Finished(Err(error)))
            },
            _ => recorded.turn_to(self.index + 1),
        }
    }

    /// The outcome of a target that was found missing when it was checked.
    pub open spec fn missing(self) -> OutcomeView {
        if self.config.force {
            OutcomeView::SkippedMissing
        } else {
            OutcomeView::Failed(DeleteErrorView::NotFound { path: self.current() })
        }
    }

    /// The stage in which the removal of the target in hand begins.
    pub open spec fn deleting(self) -> RunStage {
        RunStage::Deleting(DeletionModel::start(self.current(), self.config))
    }

    /// The request that the run waits for, or `None` once it has ended.
    pub open spec fn pending(self) -> Option<RequestView> {
        match self.stage {
            RunStage::Estimating(estimate) => estimate.pending(),
            RunStage::Confirming { count } => Some(
                RequestView::Confirm { prompt: aggregate_prompt(count as nat) },
            ),
            RunStage::Checking => Some(RequestView::Stat { path: self.current() }),
            RunStage::Asking => Some(RequestView::Confirm { prompt: item_prompt(self.current()) }),
            RunStage::Deleting(deletion) => deletion.pending(),
            RunStage::Finished(_) => None,
        }
    }

    /// The run after `reply` was handed to it. A reply that does not answer
    /// the pending request changes nothing.
    pub open spec fn next(self, reply: ReplyView) -> RunModel {
        match self.stage {
            RunStage::Estimating(estimate) => match estimate.next(reply).result() {
                Some(result) => self.estimated(result),
                None => self.at(RunStage::Estimating(estimate.next(reply))),
            },
            RunStage::Confirming { .. } => match reply {
                ReplyView::Answer(true) => self.turn_to(0),
                ReplyView::Answer(false) => self.at(RunStage::Finished(Ok(()))),
                _ => self,
            },
            RunStage::Checking => match reply {
                ReplyView::Kind(EntryKind::Missing) => self.settled(self.missing()),
                ReplyView::Kind(_) => if self.config.interactive == Interactive::EachItem {
                    self.at(RunStage::Asking)
                } else {
                    self.at(self.deleting())
                },
                _ => self,
            },
            RunStage::Asking => match reply {
                ReplyView::Answer(true) => self.at(self.deleting()),
                ReplyView::Answer(false) => self.turn_to(self.index + 1),
                _ => self,
            },
            RunStage::Deleting(deletion) => match deletion.next(reply).outcome() {
                Some(outcome) => self.settled(outcome),
                None => self.at(RunStage::Deleting(deletion.next(reply))),
            },
            RunStage::Finished(_) => self,
        }
    }

    /// How the run ended, or `None` while it is under way.
    pub open spec fn status(self) -> Option<Result<(), DeleteErrorView>> {
        match self.stage {
            RunStage::Finished(result) => Some(result),
            _ => None,
        }
    }
}

impl RunModel {
    /// Whether all of `outcomes` before position `end` are successes.
    pub open spec fn all_dealt_with(outcomes: Seq<OutcomeView>, end: int) -> bool {
        forall|i: int| 0 <= i < end && i < outcomes.len() ==> (#[trigger] outcomes[i]).result().is_ok()
    }

    /// What holds of every run that was begun by [`RunModel::start`] and taken
    /// forward by [`RunModel::next`]. The engines that the run holds are well
    /// formed, under way, and about the run's own targets and configuration;
    /// nothing is recorded before the first target is turned to. A forced run
    /// has not failed. An unforced run has recorded nothing but successes
    /// until it fails, and the failure that ends it is the last it records.
    pub open spec fn wf(self) -> bool {
        &&& match self.stage {
            RunStage::Estimating(estimate) => {
                &&& estimate.wf()
                &&& estimate.targets == self.targets
                &&& estimate.config == self.config
                &&& estimate.result().is_none()
                &&& self.index == 0
                &&& self.outcomes.len() == 0
            },
            RunStage::Confirming { .. } => self.index == 0 && self.outcomes.len() == 0,
            RunStage::Checking => self.index < self.targets.len(),
            RunStage::Asking => self.index < self.targets.len(),
            RunStage::Deleting(deletion) => {
                &&& self.index < self.targets.len()
                &&& deletion.wf()
                &&& deletion.path == self.current()
                &&& deletion.config == self.config
                &&& deletion.outcome().is_none()
            },
            RunStage::Finished(_) => true,
        }
        &&& self.outcomes.len() <= self.index + if self.stage matches RunStage::Finished(Err(_)) {
            1nat
        } else {
            0nat
        }
        &&& self.config.force ==> !(self.stage matches RunStage::Finished(Err(_)))
        &&& !self.config.force ==> match self.stage {
            RunStage::Finished(Err(error)) => {
                &&& Self::all_dealt_with(self.outcomes, self.outcomes.len() - 1)
                &&& self.outcomes.len() == 0 || self.outcomes.last() == OutcomeView::Failed(error)
            },
            _ => Self::all_dealt_with(self.outcomes, self.outcomes.len() as int),
        }
    }

    /// The run after `replies` were handed to it, one after the other.
    pub open spec fn run(self, replies: Seq<ReplyView>) -> RunModel
        decreases replies.len(),
    {
        if replies.len() == 0 {
            self
        } else {
            self.run(replies.drop_last()).next(replies.last())
        }
    }
}

/// Every run that can be reached is well formed, and no reply changes its
/// targets or its configuration. A well-formed run waits for a request exactly
/// as long as it has not ended.
pub proof fn lemma_run_well_formed(
    targets: Seq<Seq<char>>,
    config: Config,
    run: RunModel,
    reply: ReplyView,
)
    requires
        run.wf(),
    ensures
        RunModel::start(targets, config).wf(),
        run.next(reply).wf(),
        run.next(reply).targets == run.targets,
        run.next(reply).config == run.config,
        run.pending().is_none() <==> run.status().is_some(),
{
    crate::estimate::lemma_estimate_well_formed(
        targets,
        config,
        EstimatorModel::start(targets, config),
        reply,
    );
    match run.stage {
        RunStage::Estimating(estimate) => {
            crate::estimate::lemma_estimate_well_formed(targets, config, estimate, reply);
        },
        RunStage::Deleting(deletion) => {
            crate::engine::lemma_deletion_well_formed(run.current(), config, deletion, reply);
            crate::engine::lemma_deletion_well_formed(
                run.current(),
                run.config,
                DeletionModel::start(run.current(), run.config),
                reply,
            );
        },
        RunStage::Checking => {
            crate::engine::lemma_deletion_well_formed(
                run.current(),
                run.config,
                DeletionModel::start(run.current(), run.config),
                reply,
            );
        },
        RunStage::Asking => {
            crate::engine::lemma_deletion_well_formed(
                run.current(),
                run.config,
                DeletionModel::start(run.current(), run.config),
                reply,
            );
        },
        _ => {},
    }
}

proof fn lemma_run_stays_well_formed(
    targets: Seq<Seq<char>>,
    config: Config,
    replies: Seq<ReplyView>,
)
    ensures
        RunModel::start(targets, config).run(replies).wf(),
        RunModel::start(targets, config).run(replies).config == config,
        RunModel::start(targets, config).run(replies).targets == targets,
    decreases replies.len(),
{
    let begun = RunModel::start(targets, config);
    if replies.len() == 0 {
        lemma_run_well_formed(targets, config, begun, ReplyView::Printed);
    } else {
        lemma_run_stays_well_formed(targets, config, replies.drop_last());
        lemma_run_well_formed(targets, config, begun.run(replies.drop_last()), replies.last());
    }
}

/// The failure policy. However the caller answers, a forced run never ends
/// with an error: missing targets are passed over, failures are recorded, and
/// the run goes on. An unforced run ends at its first failure: as long as it
/// has not failed, every outcome it has recorded is a success; and when it
/// has, all outcomes but the last are successes, and the last, if there is
/// one, is the failure that ended it (there is none when a target was found
/// missing while the run was being estimated).
pub proof fn lemma_failure_policy(
    targets: Seq<Seq<char>>,
    config: Config,
    replies: Seq<ReplyView>,
)
    ensures
        ({
            let now = RunModel::start(targets, config).run(replies);
            &&& config.force ==> !(now.status() matches Some(Err(_)))
            &&& !config.force && !(now.status() matches Some(Err(_))) ==> RunModel::all_dealt_with(
                now.outcomes,
                now.outcomes.len() as int,
            )
            &&& !config.force ==> (now.status() matches Some(Err(error)) ==> {
                &&& RunModel::all_dealt_with(now.outcomes, now.outcomes.len() - 1)
                &&& now.outcomes.len() == 0 || now.outcomes.last() == OutcomeView::Failed(error)
            })
        }),
{
    lemma_run_stays_well_formed(targets, config, replies);
}

/// A "no" to the question about the whole run ends the run in success before
/// any target is touched: nothing is recorded, and nothing more is asked.
pub proof fn lemma_declined_as_a_whole(run: RunModel)
    requires
        run.wf(),
        run.stage is Confirming,
    ensures
        run.next(ReplyView::Answer(false)).status() == Some(Ok::<(), DeleteErrorView>(())),
        run.next(ReplyView::Answer(false)).outcomes.len() == 0,
        run.next(ReplyView::Answer(false)).pending().is_none(),
{
}

/// A "no" to the question about one target passes over that target alone:
/// nothing is recorded for it, and the run turns to the next target.
pub proof fn lemma_declined_one(run: RunModel)
    requires
        run.wf(),
        run.stage is Asking,
    ensures
        run.next(ReplyView::Answer(false)) == run.turn_to(run.index + 1),
        run.next(ReplyView::Answer(false)).outcomes == run.outcomes,
{
}

/// The exit code of a process whose run ended with `status`: zero for
/// success, one for an error. A forced run records its failures but ends in
/// success, so its exit code is zero; so is that of a run that the user
/// declined.
pub open spec fn spec_exit_code(status: Result<(), DeleteErrorView>) -> i32 {
    match status {
        Ok(_) => 0,
        Err(_) => 1,
    }
}

/// The outcomes that a list holds, each by its mathematical value.
pub open spec fn outcomes_view(outcomes: Seq<Outcome>) -> Seq<OutcomeView> {
    outcomes.map_values(|outcome: Outcome| outcome@)
}

enum Stage {
    Estimating(Estimator),
    Confirming { count: usize },
    Checking,
    Asking,
    Deleting(Deletion),
    Finished(Result<(), DeleteError>),
}

/// A whole run, as a state machine.
pub struct Run {
    targets: Vec<String>,
    config: Config,
    index: usize,
    outcomes: Vec<Outcome>,
    stage: Stage,
}

impl View for Run {
    type V = RunModel;

    closed spec fn view(&self) -> RunModel {
        RunModel {
            targets: paths_view(self.targets@),
            config: self.config,
            index: self.index as nat,
            outcomes: outcomes_view(self.outcomes@),
            stage: match self.stage {
                Stage::Estimating(estimate) => RunStage::Estimating(estimate@),
                Stage::Confirming { count } => RunStage::Confirming { count },
                Stage::Checking => RunStage::Checking,
                Stage::Asking => RunStage::Asking,
                Stage::Deleting(deletion) => RunStage::Deleting(deletion@),
                Stage::Finished(Ok(())) => RunStage::Finished(Ok(())),
                Stage::Finished(Err(error)) => RunStage::Finished(Err(error@)),
            },
        }
    }
}

/// Copies a list of paths.
fn copy_paths(paths: &Vec<String>) -> (copy: Vec<String>)
    ensures
        paths_view(copy@) == paths_view(paths@),
{
    let mut copy: Vec<String> = Vec::new();
    let mut i: usize = 0;
    while i < paths.len()
        invariant
            i <= paths.len(),
            copy.len() == i,
            forall|j: int| 0 <= j < i ==> copy[j]@ == paths[j]@,
        decreases paths.len() - i,
    {
        copy.push(paths[i].clone());
        i += 1;
    }
    assert(paths_view(copy@) =~= paths_view(paths@));
    copy
}

impl Run {
    #[verifier::type_invariant]
    spec fn inv(self) -> bool {
        &&& self.stage is Checking || self.stage is Asking || self.stage is Deleting
            ==> self.index < self.targets.len()
        &&& self.stage is Estimating || self.stage is Confirming ==> self.index == 0
    }

    spec fn fresh(targets: Seq<String>, config: Config, outcomes: Seq<Outcome>) -> RunModel {
        RunModel {
            targets: paths_view(targets),
            config,
            index: 0,
            outcomes: outcomes_view(outcomes),
            stage: RunStage::Checking,
        }
    }

    fn turn_to(targets: Vec<String>, config: Config, index: usize, outcomes: Vec<Outcome>) -> (next:
        Run)
        ensures
            next@ == Self::fresh(targets@, config, outcomes@).turn_to(index as nat),
    {
        let stage = if index < targets.len() {
            Stage::Checking
        } else {
            Stage::Finished(Ok(()))
        };
        Run { targets, config, index, outcomes, stage }
    }

    fn estimated(
        targets: Vec<String>,
        config: Config,
        outcomes: Vec<Outcome>,
        result: Result<usize, DeleteError>,
    ) -> (next: Run)
        ensures
            next@ == Self::fresh(targets@, config, outcomes@).estimated(
                match result {
                    Ok(count) => Ok(count),
                    Err(error) => Err(error@),
                },
            ),
    {
        match result {
            Err(error) => Run { targets, config, index: 0, outcomes, stage: Stage::Finished(Err(error)) },
            Ok(count) => if config.needs_aggregate_prompt(count) {
                Run { targets, config, index: 0, outcomes, stage: Stage::Confirming { count } }
            } else {
                Self::turn_to(targets, config, 0, outcomes)
            },
        }
    }

    fn settled(
        targets: Vec<String>,
        config: Config,
        index: usize,
        outcomes: Vec<Outcome>,
        outcome: Outcome,
    ) -> (next: Run)
        requires
            index < targets.len(),
        ensures
            next@ == Self::fresh(targets@, config, outcomes@).turn_to(index as nat).settled(
                outcome@,
            ),
    {
        let ghost before = outcomes@;
        let mut outcomes = outcomes;
        let failure = match &outcome {
            Outcome::Failed(error) => if config.force {
                None
            } else {
                Some(error.duplicate())
            },
            _ => None,
        };
        outcomes.push(outcome);
        assert(outcomes_view(outcomes@) =~= outcomes_view(before).push(outcome@));
        match failure {
            Some(error) => Run { targets, config, index, outcomes, stage: Stage::Finished(Err(error)) },
            None => Self::turn_to(targets, config, index + 1, outcomes),
        }
    }

    /// Begins the run over `paths` under `config`.
    pub fn start(paths: Vec<String>, config: &Config) -> (run: Run)
        ensures
            run@ == RunModel::start(paths_view(paths@), *config),
    {
        let outcomes: Vec<Outcome> = Vec::new();
        assert(outcomes_view(outcomes@) =~= Seq::empty());
        match config.interactive {
            Interactive::OnceAggregate => {
                let estimate = count_deletions(copy_paths(&paths), config);
                match estimate.result() {
                    Some(result) => Self::estimated(paths, *config, outcomes, result),
                    None => Run {
                        targets: paths,
                        config: *config,
                        index: 0,
                        outcomes,
                        stage: Stage::Estimating(estimate),
                    },
                }
            },
            _ => Self::turn_to(paths, *config, 0, outcomes),
        }
    }

    /// The request that the caller is to perform next, or `None` once the run
    /// has ended.
    pub fn pending(&self) -> (request: Option<Request>)
        ensures
            request_view(request) == self@.pending(),
    {
        proof {
            use_type_invariant(self);
        }
        match &self.stage {
            Stage::Estimating(estimate) => estimate.pending(),
            Stage::Confirming { count } => Some(
                Request::Confirm { prompt: aggregate_prompt_text(*count) },
            ),
            Stage::Checking => Some(Request::Stat { path: self.targets[self.index].clone() }),
            Stage::Asking => Some(
                Request::Confirm { prompt: item_prompt_text(&self.targets[self.index]) },
            ),
            Stage::Deleting(deletion) => deletion.pending(),
            Stage::Finished(_) => None,
        }
    }

    /// Hands the caller's `reply` to the run and gives the run as it stands
    /// afterwards.
    pub fn step(self, reply: Reply) -> (next: Run)
        ensures
            next@ == self@.next(reply@),
    {
        proof {
            use_type_invariant(&self);
        }
        let Run { targets, config, index, outcomes, stage } = self;
        match stage {
            Stage::Estimating(estimate) => {
                let estimate = estimate.step(reply);
                match estimate.result() {
                    Some(result) => Self::estimated(targets, config, outcomes, result),
                    None => Run { targets, config, index, outcomes, stage: Stage::Estimating(estimate) },
                }
            },
            Stage::Confirming { count } => match reply {
                Reply::Answer(true) => Self::turn_to(targets, config, 0, outcomes),
                Reply::Answer(false) => Run {
                    targets,
                    config,
                    index,
                    outcomes,
                    stage: Stage::Finished(Ok(())),
                },
                _ => Run { targets, config, index, outcomes, stage: Stage::Confirming { count } },
            },
            Stage::Checking => match reply {
                Reply::Kind(EntryKind::Missing) => {
                    let outcome = if config.force {
                        Outcome::SkippedMissing
                    } else {
                        Outcome::Failed(DeleteError::NotFound { path: targets[index].clone() })
                    };
                    Self::settled(targets, config, index, outcomes, outcome)
                },
                Reply::Kind(_) => {
                    let stage = match config.interactive {
                        Interactive::EachItem => Stage::Asking,
                        _ => Stage::Deleting(delete_path(targets[index].clone(), &config)),
                    };
                    Run { targets, config, index, outcomes, stage }
                },
                _ => Run { targets, config, index, outcomes, stage: Stage::Checking },
            },
            Stage::Asking => match reply {
                Reply::Answer(true) => {
                    let stage = Stage::Deleting(delete_path(targets[index].clone(), &config));
                    Run { targets, config, index, outcomes, stage }
                },
                Reply::Answer(false) => Self::turn_to(targets, config, index + 1, outcomes),
                _ => Run { targets, config, index, outcomes, stage: Stage::Asking },
            },
            Stage::Deleting(deletion) => {
                let deletion = deletion.step(reply);
                let ended = match deletion.outcome() {
                    Some(outcome) => Some(outcome.duplicate()),
                    None => None,
                };
                match ended {
                    Some(outcome) => Self::settled(targets, config, index, outcomes, outcome),
                    None => Run { targets, config, index, outcomes, stage: Stage::Deleting(deletion) },
                }
            },
            Stage::Finished(result) => Run { targets, config, index, outcomes, stage: Stage::Finished(result) },
        }
    }

    /// Whether the run has ended.
    pub fn is_finished(&self) -> (yes: bool)
        ensures
            yes == self@.status().is_some(),
    {
        match self.stage {
            Stage::Finished(_) => true,
            _ => false,
        }
    }

    /// How the run ended, or `None` while it is under way.
    pub fn status(&self) -> (status: Option<Result<(), &DeleteError>>)
        ensures
            match status {
                Some(Ok(())) => self@.status() == Some(Ok::<(), DeleteErrorView>(())),
                Some(Err(error)) => self@.status() == Some(Err::<(), DeleteErrorView>(error@)),
                None => self@.status().is_none(),
            },
    {
        match &self.stage {
            Stage::Finished(Ok(())) => Some(Ok(())),
            Stage::Finished(Err(error)) => Some(Err(error)),
            _ => None,
        }
    }

    /// The exit code of the process once the run has ended: zero for success,
    /// one for an error.
    pub fn exit_code(&self) -> (code: Option<i32>)
        ensures
            code == match self@.status() {
                Some(status) => Some(spec_exit_code(status)),
                None => None,
            },
    {
        match self.stage {
            Stage::Finished(Ok(_)) => Some(0),
            Stage::Finished(Err(_)) => Some(1),
            _ => None,
        }
    }

    /// How the targets that were attempted so far have ended, in order.
    pub fn outcomes(&self) -> (outcomes: &Vec<Outcome>)
        ensures
            outcomes_view(outcomes@) == self@.outcomes,
    {
        &self.outcomes
    }
}

} // verus!
