//! The operations on an account: each names an action and hands out the
//! units of work that it takes for the account's repositories.

use vstd::prelude::*;

use crate::action::Action;
use crate::dispatch::{dispatch, job_views, jobs_of, Job};
use crate::repo::{repo_views, Repo};

verus! {

/// Whether `jobs` are the units of `action` for the repositories of `repos`
/// that the namespace filter selects.
pub open spec fn units_for(
    jobs: Seq<Job>,
    action: Action,
    repos: Seq<Repo>,
    flags: u8,
    namespace: Seq<char>,
) -> bool {
    job_views(jobs) == jobs_of(action, repo_views(repos), flags, namespace)
}

/// An account on a hosting provider: something that can list its
/// repositories.
///
/// Each operation asks for the repositories once and returns the units of
/// work of its action for those of the answer that the namespace filter
/// selects. Nothing is run here: a unit says what to announce and which
/// commands to run, and its user runs them.
pub trait GitAction {
    /// The repositories of the account. What a provider answers is not known
    /// beforehand, so nothing is promised of the list.
    fn get_repos(&self) -> Vec<Repo>;

    /// Lists the repositories: each unit announces a name and an address,
    /// and runs nothing.
    fn list(&self, flags: u8, namespace: &str) -> (jobs: Vec<Job>)
        ensures
            exists|repos: Vec<Repo>|
                #[trigger] call_ensures(Self::get_repos, (self,), repos) && units_for(
                    jobs@,
                    Action::List,
                    repos@,
                    flags,
                    namespace@,
                ),
    {
        dispatch(Action::List, self.get_repos(), flags, namespace)
    }

    /// Clones the repositories that have no local copy yet.
    fn clone(&self, flags: u8, namespace: &str) -> (jobs: Vec<Job>)
        ensures
            exists|repos: Vec<Repo>|
                #[trigger] call_ensures(Self::get_repos, (self,), repos) && units_for(
                    jobs@,
                    Action::Clone,
                    repos@,
                    flags,
                    namespace@,
                ),
    {
        dispatch(Action::Clone, self.get_repos(), flags, namespace)
    }

    /// Brings the local copies up to date, cloning those that are missing.
    fn pull(&self, flags: u8, namespace: &str) -> (jobs: Vec<Job>)
        ensures
            exists|repos: Vec<Repo>|
                #[trigger] call_ensures(Self::get_repos, (self,), repos) && units_for(
                    jobs@,
                    Action::Pull,
                    repos@,
                    flags,
                    namespace@,
                ),
    {
        dispatch(Action::Pull, self.get_repos(), flags, namespace)
    }

    /// Puts the local copies on the head of their branch as the remote has
    /// it, cloning those that are missing.
    fn checkout(&self, flags: u8, namespace: &str) -> (jobs: Vec<Job>)
        ensures
            exists|repos: Vec<Repo>|
                #[trigger] call_ensures(Self::get_repos, (self,), repos) && units_for(
                    jobs@,
                    Action::Checkout,
                    repos@,
                    flags,
                    namespace@,
                ),
    {
        dispatch(Action::Checkout, self.get_repos(), flags, namespace)
    }

    /// Updates the local mirrors, cloning those that are missing.
    fn mirror_pull(&self, flags: u8, namespace: &str) -> (jobs: Vec<Job>)
        ensures
            exists|repos: Vec<Repo>|
                #[trigger] call_ensures(Self::get_repos, (self,), repos) && units_for(
                    jobs@,
                    Action::MirrorPull,
                    repos@,
                    flags,
                    namespace@,
                ),
    {
        dispatch(Action::MirrorPull, self.get_repos(), flags, namespace)
    }

    /// Pushes the local mirrors to the remote.
    fn mirror_push(&self, flags: u8, namespace: &str) -> (jobs: Vec<Job>)
        ensures
            exists|repos: Vec<Repo>|
                #[trigger] call_ensures(Self::get_repos, (self,), repos) && units_for(
                    jobs@,
                    Action::MirrorPush,
                    repos@,
                    flags,
                    namespace@,
                ),
    {
        dispatch(Action::MirrorPush, self.get_repos(), flags, namespace)
    }
}

} // verus!
