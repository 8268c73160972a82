//! Sequencing of the commands for one repository: each command runs only if
//! the one before it succeeded, and the first failure decides the outcome.
//!
//! A `Chain` holds the decisions. Its user asks for the next command, runs
//! it, and reports how it ended, until the chain has an outcome.

use vstd::prelude::*;

use crate::action::Action;
use crate::command::{
    ActionOutcome, ActionOutcomeView, CommandStatus, CommandStatusView, GitCommand, GitError,
    GitErrorView,
};
use crate::plan::{command_views, plan, plan_of};
use crate::repo::Repo;

verus! {

/// The state of a chain: the repository it works for, its commands, how many
/// of them have succeeded, and the failure that ended it, if one did.
pub struct ChainView {
    pub name: Seq<char>,
    pub steps: Seq<Seq<Seq<char>>>,
    pub done: nat,
    pub failure: Option<GitErrorView>,
}

impl ChainView {
    /// The chain for `name` before any of `steps` has run.
    pub open spec fn start(name: Seq<char>, steps: Seq<Seq<Seq<char>>>) -> ChainView {
        ChainView { name, steps, done: 0, failure: None }
    }

    /// Whether a command is still to be run.
    pub open spec fn pending(self) -> bool {
        self.failure is None && self.done < self.steps.len()
    }

    /// The command to run now, if any.
    pub open spec fn next(self) -> Option<Seq<Seq<char>>> {
        if self.pending() {
            Some(self.steps[self.done as int])
        } else {
            None
        }
    }

    /// The state after the command handed out by `next` ended with `status`.
    /// A chain that has nothing pending ignores the report.
    pub open spec fn record(self, status: CommandStatusView) -> ChainView {
        if !self.pending() {
            self
        } else {
            match status.failure() {
                None => ChainView { done: self.done + 1, ..self },
                Some(cause) => ChainView { failure: Some(cause), ..self },
            }
        }
    }

    /// The outcome, once nothing is pending: the failure that ended the
    /// chain, or success when every command succeeded.
    pub open spec fn outcome(self) -> Option<ActionOutcomeView> {
        match self.failure {
            Some(cause) => Some(ActionOutcomeView::Failure { name: self.name, cause }),
            None => if self.done < self.steps.len() {
                None
            } else {
                Some(ActionOutcomeView::Success { name: self.name })
            },
        }
    }

    /// The state after the reports `statuses` arrived in this order.
    pub open spec fn run(self, statuses: Seq<CommandStatusView>) -> ChainView
        decreases statuses.len(),
    {
        if statuses.len() == 0 {
            self
        } else {
            self.record(statuses[0]).run(statuses.drop_first())
        }
    }

    /// The commands that were handed out to obtain the reports `statuses`:
    /// one for each report that arrived while a command was pending.
    pub open spec fn issued(self, statuses: Seq<CommandStatusView>) -> Seq<Seq<Seq<char>>>
        decreases statuses.len(),
    {
        if statuses.len() == 0 || !self.pending() {
            seq![]
        } else {
            seq![self.steps[self.done as int]] + self.record(statuses[0]).issued(
                statuses.drop_first(),
            )
        }
    }
}

/// Whether every report in `statuses` is a success.
pub open spec fn all_succeed(statuses: Seq<CommandStatusView>) -> bool {
    forall|i: int| 0 <= i < statuses.len() ==> (#[trigger] statuses[i]).failure() is None
}

/// At every moment a chain either has a command to run or has its outcome,
/// never both and never neither.
pub proof fn lemma_command_or_outcome(chain: ChainView)
    ensures
        chain.next() is Some <==> chain.outcome() is None,
{
}

/// An outcome always belongs to the repository that the chain works for.
pub proof fn lemma_outcome_names_repository(chain: ChainView)
    ensures
        chain.outcome() is Some ==> chain.outcome()->Some_0.name() == chain.name,
{
}

/// Once a chain has its outcome, no further report changes it: a repository
/// never gets a second outcome.
pub proof fn lemma_outcome_is_final(chain: ChainView, statuses: Seq<CommandStatusView>)
    requires
        chain.outcome() is Some,
    ensures
        chain.run(statuses) == chain,
        chain.issued(statuses) == Seq::<Seq<Seq<char>>>::empty(),
    decreases statuses.len(),
{
    if statuses.len() > 0 {
        lemma_outcome_is_final(chain, statuses.drop_first());
    }
}

/// A chain that has received a report for each of its remaining commands has
/// an outcome: a repository never stays without one.
pub proof fn lemma_outcome_is_reached(chain: ChainView, statuses: Seq<CommandStatusView>)
    requires
        chain.done + statuses.len() >= chain.steps.len(),
    ensures
        chain.run(statuses).outcome() is Some,
    decreases statuses.len(),
{
    if statuses.len() > 0 {
        let after = chain.record(statuses[0]);
        if after.outcome() is Some {
            lemma_outcome_is_final(after, statuses.drop_first());
        } else {
            lemma_outcome_is_reached(after, statuses.drop_first());
        }
    }
}

/// Where every command succeeds, all of them run, in their order, and the
/// outcome is success.
pub proof fn lemma_success_runs_every_step(chain: ChainView, statuses: Seq<CommandStatusView>)
    requires
        chain.failure is None,
        chain.done <= chain.steps.len(),
        chain.done + statuses.len() == chain.steps.len(),
        all_succeed(statuses),
    ensures
        chain.run(statuses).outcome() == Some(ActionOutcomeView::Success { name: chain.name }),
        chain.issued(statuses) == chain.steps.subrange(
            chain.done as int,
            chain.steps.len() as int,
        ),
    decreases statuses.len(),
{
    if statuses.len() > 0 {
        let rest = statuses.drop_first();
        assert forall|i: int| 0 <= i < rest.len() implies (#[trigger] rest[i]).failure()
            is None by {
            assert(rest[i] == statuses[i + 1]);
        }
        lemma_success_runs_every_step(chain.record(statuses[0]), rest);
    }
}

/// Short circuit: where the commands before the `failed`-th succeed and that
/// one fails, the outcome is the failure with that command's cause, whatever
/// is reported afterwards, and no command after it is handed out.
pub proof fn lemma_first_failure_decides(
    chain: ChainView,
    statuses: Seq<CommandStatusView>,
    failed: int,
)
    requires
        chain.failure is None,
        0 <= failed < statuses.len(),
        chain.done + failed < chain.steps.len(),
        all_succeed(statuses.take(failed)),
        statuses[failed].failure() is Some,
    ensures
        chain.run(statuses).outcome() == Some(
            ActionOutcomeView::Failure {
                name: chain.name,
                cause: statuses[failed].failure()->Some_0,
            },
        ),
        chain.issued(statuses) == chain.steps.subrange(
            chain.done as int,
            chain.done + failed + 1,
        ),
    decreases failed,
{
    let rest = statuses.drop_first();
    let after = chain.record(statuses[0]);
    if failed == 0 {
        lemma_outcome_is_final(after, rest);
    } else {
        let earlier = rest.take(failed - 1);
        assert(statuses.take(failed)[0] == statuses[0]);
        assert forall|i: int| 0 <= i < earlier.len() implies (#[trigger] earlier[i]).failure()
            is None by {
            assert(earlier[i] == statuses.take(failed)[i + 1]);
        }
        lemma_first_failure_decides(after, rest, failed - 1);
    }
}

/// The commands for one repository and how far they have come.
#[derive(Debug)]
pub struct Chain {
    name: String,
    steps: Vec<GitCommand>,
    done: usize,
    failure: Option<GitError>,
}

impl View for Chain {
    type V = ChainView;

    closed spec fn view(&self) -> ChainView {
        ChainView {
            name: self.name@,
            steps: command_views(self.steps@),
            done: self.done as nat,
            failure: match self.failure {
                Some(cause) => Some(cause@),
                None => None,
            },
        }
    }
}

impl Chain {
    /// A chain that runs `steps` in their order for the repository `name`.
    pub fn new(name: &str, steps: Vec<GitCommand>) -> (chain: Chain)
        ensures
            chain@ == ChainView::start(name@, command_views(steps@)),
    {
        Chain { name: name.to_owned(), steps, done: 0, failure: None }
    }

    /// The chain of `action` for `repo` in a run with `flags`. `present` says
    /// whether a directory named after the repository exists.
    pub fn begin(action: Action, repo: &Repo, flags: u8, present: bool) -> (chain: Chain)
        ensures
            chain@ == ChainView::start(repo@.name, plan_of(action, repo@, flags, present)),
    {
        Chain::new(repo.name.as_str(), plan(action, repo, flags, present))
    }

    /// The command to run now, or `None` when the chain has its outcome.
    pub fn next(&self) -> (command: Option<&GitCommand>)
        ensures
            match command {
                Some(c) => self@.next() == Some(c@),
                None => self@.next() is None,
            },
    {
        if self.failure.is_none() && self.done < self.steps.len() {
            Some(&self.steps[self.done])
        } else {
            None
        }
    }

    /// Takes the report of how the command handed out by `next` ended. A
    /// chain that has its outcome ignores the report.
    pub fn record(&mut self, status: CommandStatus)
        ensures
            final(self)@ == old(self)@.record(status@),
    {
        if self.failure.is_none() && self.done < self.steps.len() {
            match status.failure() {
                None => {
                    self.done = self.done + 1;
                },
                Some(cause) => {
                    self.failure = Some(cause);
                },
            }
        }
    }

    /// The outcome, or `None` while a command is still to be run.
    pub fn outcome(&self) -> (outcome: Option<ActionOutcome>)
        ensures
            match outcome {
                Some(o) => self@.outcome() == Some(o@),
                None => self@.outcome() is None,
            },
    {
        match &self.failure {
            Some(cause) => Some(
                ActionOutcome::Failure { name: self.name.clone(), cause: cause.clone() },
            ),
            None => if self.done < self.steps.len() {
                None
            } else {
                Some(ActionOutcome::Success { name: self.name.clone() })
            },
        }
    }
}

} // verus!
