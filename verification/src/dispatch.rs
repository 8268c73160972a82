//! Fan-out of one action over a list of repositories: one unit of work for
//! each repository that the namespace filter selects.

use vstd::prelude::*;

use crate::action::Action;
use crate::catalog::distinct_names;
use crate::chain::{
    all_succeed, lemma_outcome_is_final, lemma_outcome_is_reached, lemma_success_runs_every_step,
    Chain, ChainView,
};
use crate::command::{ActionOutcomeView, CommandStatusView};
use crate::plan::plan_of;
use crate::repo::{repo_views, selected_repos, Repo, RepoView};

verus! {

/// One unit of work: an action to apply to one repository in a run with
/// given flags. Units are independent of each other.
#[derive(Debug)]
pub struct Job {
    action: Action,
    flags: u8,
    repo: Repo,
}

/// A unit of work: its action, the flags of the run and its repository.
pub struct JobView {
    pub action: Action,
    pub flags: u8,
    pub repo: RepoView,
}

impl View for Job {
    type V = JobView;

    closed spec fn view(&self) -> JobView {
        JobView { action: self.action, flags: self.flags, repo: self.repo@ }
    }
}

impl JobView {
    /// The chain of commands that the unit starts with, given whether a
    /// directory named after the repository exists.
    pub open spec fn chain(self, present: bool) -> ChainView {
        ChainView::start(self.repo.name, plan_of(self.action, self.repo, self.flags, present))
    }
}

/// The views of a list of units.
pub open spec fn job_views(jobs: Seq<Job>) -> Seq<JobView> {
    jobs.map_values(|j: Job| j@)
}

/// The units of work of one invocation: one for each repository of `repos`
/// that `filter` selects, in the order of `repos`.
pub open spec fn jobs_of(action: Action, repos: Seq<RepoView>, flags: u8, filter: Seq<char>) -> Seq<
    JobView,
> {
    selected_repos(repos, filter).map_values(|repo: RepoView| JobView { action, flags, repo })
}

/// The repositories acted upon in one invocation are exactly those of the
/// catalog that the filter selects: every unit works for one of them, and each
/// of them has a unit. A repository that the filter does not select has
/// none.
pub proof fn lemma_jobs_are_the_selected(
    action: Action,
    repos: Seq<RepoView>,
    flags: u8,
    filter: Seq<char>,
)
    ensures
        jobs_of(action, repos, flags, filter).len() == selected_repos(repos, filter).len(),
        forall|i: int|
            0 <= i < selected_repos(repos, filter).len() ==> #[trigger] jobs_of(
                action,
                repos,
                flags,
                filter,
            )[i] == (JobView { action, flags, repo: selected_repos(repos, filter)[i] }),
        forall|r: RepoView| #[trigger]
            selected_repos(repos, filter).contains(r) <==> repos.contains(r) && r.selected_by(
                filter,
            ),
{
    let selects = |r: RepoView| r.selected_by(filter);
    let chosen = repos.filter(selects);
    assert forall|r: RepoView| #[trigger]
        chosen.contains(r) <==> repos.contains(r) && r.selected_by(filter) by {
        if chosen.contains(r) {
            repos.lemma_filter_contains_rev(selects, r);
        }
        if repos.contains(r) && r.selected_by(filter) {
            let i = choose|i: int| 0 <= i < repos.len() && repos[i] == r;
            repos.lemma_filter_contains(selects, i);
        }
    }
}

/// No repository is visited twice: where no name occurs twice in the
/// catalog, none occurs twice among the units.
pub proof fn lemma_no_repository_twice(repos: Seq<RepoView>, filter: Seq<char>)
    requires
        distinct_names(repos),
    ensures
        distinct_names(selected_repos(repos, filter)),
    decreases repos.len(),
{
    reveal(Seq::filter);
    let selects = |r: RepoView| r.selected_by(filter);
    if repos.len() > 0 {
        let front = repos.drop_last();
        let last = repos.last();
        assert(distinct_names(front));
        lemma_no_repository_twice(front, filter);
        let chosen = front.filter(selects);
        if last.selected_by(filter) {
            let all = chosen.push(last);
            assert forall|i: int, j: int| 0 <= i < j < all.len() implies (#[trigger] all[i]).name
                != (#[trigger] all[j]).name by {
                if j == chosen.len() {
                    front.lemma_filter_contains_rev(selects, chosen[i]);
                }
            }
        }
    }
}

/// Every unit of work ends in exactly one outcome, and the outcome bears the
/// name of the unit's repository: once a report has come for each command
/// of the plan, the outcome is there, and no later report changes it.
pub proof fn lemma_exactly_one_outcome(
    job: JobView,
    present: bool,
    statuses: Seq<CommandStatusView>,
    later: Seq<CommandStatusView>,
)
    requires
        statuses.len() >= plan_of(job.action, job.repo, job.flags, present).len(),
    ensures
        job.chain(present).run(statuses).outcome() is Some,
        job.chain(present).run(statuses).outcome()->Some_0.name() == job.repo.name,
        job.chain(present).run(statuses).run(later) == job.chain(present).run(statuses),
{
    lemma_outcome_is_reached(job.chain(present), statuses);
    lemma_run_keeps_name(job.chain(present), statuses);
    lemma_outcome_is_final(job.chain(present).run(statuses), later);
}

proof fn lemma_run_keeps_name(chain: ChainView, statuses: Seq<CommandStatusView>)
    ensures
        chain.run(statuses).name == chain.name,
    decreases statuses.len(),
{
    if statuses.len() > 0 {
        lemma_run_keeps_name(chain.record(statuses[0]), statuses.drop_first());
    }
}

/// The outcomes of an invocation whose units found their local copies as
/// `present` says and got the reports `reports` for their commands: for each
/// unit the outcome of its chain, if it has come to one.
pub open spec fn outcomes_of(
    jobs: Seq<JobView>,
    present: Seq<bool>,
    reports: Seq<Seq<CommandStatusView>>,
) -> Seq<Option<ActionOutcomeView>> {
    Seq::new(jobs.len(), |i: int| jobs[i].chain(present[i]).run(reports[i]).outcome())
}

/// An invocation in which every command that was run has been answered
/// produces exactly one outcome for each repository that the filter selects,
/// under that repository's name and in the order of the catalog, and none
/// for any other repository, whether the commands succeeded or failed.
pub proof fn lemma_one_outcome_for_each_selected(
    action: Action,
    repos: Seq<RepoView>,
    flags: u8,
    filter: Seq<char>,
    present: Seq<bool>,
    reports: Seq<Seq<CommandStatusView>>,
)
    requires
        present.len() == selected_repos(repos, filter).len(),
        reports.len() == selected_repos(repos, filter).len(),
        forall|i: int|
            0 <= i < reports.len() ==> (#[trigger] reports[i]).len() >= plan_of(
                action,
                selected_repos(repos, filter)[i],
                flags,
                present[i],
            ).len(),
    ensures
        outcomes_of(jobs_of(action, repos, flags, filter), present, reports).len()
            == selected_repos(repos, filter).len(),
        forall|i: int|
            0 <= i < selected_repos(repos, filter).len() ==> {
                let outcome = #[trigger] outcomes_of(
                    jobs_of(action, repos, flags, filter),
                    present,
                    reports,
                )[i];
                outcome is Some && outcome->Some_0.name() == selected_repos(repos, filter)[i].name
            },
{
    let jobs = jobs_of(action, repos, flags, filter);
    let outcomes = outcomes_of(jobs, present, reports);
    assert forall|i: int| 0 <= i < selected_repos(repos, filter).len() implies {
        let outcome = #[trigger] outcomes[i];
        outcome is Some && outcome->Some_0.name() == selected_repos(repos, filter)[i].name
    } by {
        lemma_exactly_one_outcome(jobs[i], present[i], reports[i], Seq::empty());
    }
}

/// Idempotence of `Clone`: a run whose commands all succeed ends in success,
/// and a second run, which finds the local copy present, ends in success
/// too without running any command.
pub proof fn lemma_clone_twice_succeeds(
    repo: RepoView,
    flags: u8,
    present: bool,
    statuses: Seq<CommandStatusView>,
)
    requires
        statuses.len() == plan_of(Action::Clone, repo, flags, present).len(),
        all_succeed(statuses),
    ensures
        (JobView { action: Action::Clone, flags, repo }).chain(present).run(statuses).outcome()
            == Some(ActionOutcomeView::Success { name: repo.name }),
        (JobView { action: Action::Clone, flags, repo }).chain(true).next() is None,
        (JobView { action: Action::Clone, flags, repo }).chain(true).outcome() == Some(
            ActionOutcomeView::Success { name: repo.name },
        ),
{
    let job = JobView { action: Action::Clone, flags, repo };
    lemma_success_runs_every_step(job.chain(present), statuses);
}

impl Job {
    /// The action to apply.
    pub fn action(&self) -> (action: Action)
        ensures
            action == self@.action,
    {
        self.action
    }

    /// The flags of the run.
    pub fn flags(&self) -> (flags: u8)
        ensures
            flags == self@.flags,
    {
        self.flags
    }

    /// The repository to apply the action to.
    pub fn repo(&self) -> (repo: &Repo)
        ensures
            repo@ == self@.repo,
    {
        &self.repo
    }

    /// The name of the repository, which is also that of its local directory.
    pub fn name(&self) -> (name: &str)
        ensures
            name@ == self@.repo.name,
    {
        self.repo.name.as_str()
    }

    /// Starts the unit's chain of commands. `present` says whether a
    /// directory named after the repository exists.
    pub fn begin(&self, present: bool) -> (chain: Chain)
        ensures
            chain@ == self@.chain(present),
    {
        Chain::begin(self.action, &self.repo, self.flags, present)
    }
}

/// The units of work of one invocation: one for each repository of `repos`
/// that the namespace filter selects, and none for any other.
pub fn dispatch(action: Action, repos: Vec<Repo>, flags: u8, namespace: &str) -> (jobs: Vec<Job>)
    ensures
        job_views(jobs@) == jobs_of(action, repo_views(repos@), flags, namespace@),
{
    let ghost all = repo_views(repos@);
    let mut jobs: Vec<Job> = Vec::new();
    proof {
        reveal(Seq::filter);
    }
    for repo in it: repos.into_iter()
        invariant
            it.seq() == repos@,
            all == repo_views(repos@),
            job_views(jobs@) == jobs_of(action, all.take(it.index() as int), flags, namespace@),
    {
        let ghost before = all.take(it.index() as int);
        let ghost after = all.take(it.index() + 1);
        proof {
            reveal(Seq::filter);
            assert(after.drop_last() =~= before);
        }
        if repo.selected_by(namespace) {
            let ghost unit = JobView { action, flags, repo: repo@ };
            jobs.push(Job { action, flags, repo });
            proof {
                assert(jobs_of(action, after, flags, namespace@) =~= jobs_of(
                    action,
                    before,
                    flags,
                    namespace@,
                ).push(unit));
            }
        }
    }
    proof {
        assert(all.take(repos@.len() as int) =~= all);
    }
    jobs
}

} // verus!
