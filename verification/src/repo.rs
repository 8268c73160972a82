//! Repository descriptors, the flags of a run and the namespace filter.

use vstd::prelude::*;
use vstd::std_specs::cmp::PartialEqSpecImpl;

use crate::text::same_text;

verus! {

/// Flag bit: reach the remote over SSH instead of its web address.
pub const FLAG_SSH: u8 = 1;

/// Flag bit: reserved. No action consults it.
pub const FLAG_FORCE: u8 = 2;

/// One remote repository and how to reach it.
#[derive(Debug)]
pub struct Repo {
    /// Short name, unique in a catalog; also the name of the local directory.
    pub name: String,
    /// Address for browsing and for cloning over HTTPS.
    pub html_url: String,
    /// Address for cloning over SSH.
    pub ssh_url: String,
    /// Grouping on the provider's side; empty when the repository has none.
    pub namespace: String,
    /// Branch that a checkout tracks.
    pub branch: String,
}

/// What a descriptor says, as plain text.
pub struct RepoView {
    pub name: Seq<char>,
    pub html_url: Seq<char>,
    pub ssh_url: Seq<char>,
    pub namespace: Seq<char>,
    pub branch: Seq<char>,
}

impl View for Repo {
    type V = RepoView;

    open spec fn view(&self) -> RepoView {
        RepoView {
            name: self.name@,
            html_url: self.html_url@,
            ssh_url: self.ssh_url@,
            namespace: self.namespace@,
            branch: self.branch@,
        }
    }
}

/// Whether the flags ask for SSH addresses.
pub open spec fn uses_ssh(flags: u8) -> bool {
    flags & FLAG_SSH != 0
}

impl RepoView {
    /// The address that a run with these flags uses for the remote.
    pub open spec fn selected_url(self, flags: u8) -> Seq<char> {
        if uses_ssh(flags) {
            self.ssh_url
        } else {
            self.html_url
        }
    }

    /// Whether the filter selects the repository: an empty filter selects all,
    /// another one those of exactly that namespace.
    pub open spec fn selected_by(self, filter: Seq<char>) -> bool {
        filter.len() == 0 || self.namespace == filter
    }
}

/// The views of a list of descriptors.
pub open spec fn repo_views(repos: Seq<Repo>) -> Seq<RepoView> {
    repos.map_values(|r: Repo| r@)
}

/// The repositories of a list that a filter selects, in their order.
pub open spec fn selected_repos(repos: Seq<RepoView>, filter: Seq<char>) -> Seq<RepoView> {
    repos.filter(|r: RepoView| r.selected_by(filter))
}

impl Clone for Repo {
    fn clone(&self) -> (copy: Repo)
        ensures
            copy == *self,
    {
        Repo {
            name: self.name.clone(),
            html_url: self.html_url.clone(),
            ssh_url: self.ssh_url.clone(),
            namespace: self.namespace.clone(),
            branch: self.branch.clone(),
        }
    }
}

impl PartialEq for Repo {
    /// Two descriptors are the same repository when their names are equal.
    fn eq(&self, other: &Repo) -> (same: bool) {
        self.name == other.name
    }
}

impl PartialEqSpecImpl for Repo {
    open spec fn obeys_eq_spec() -> bool {
        true
    }

    open spec fn eq_spec(&self, other: &Repo) -> bool {
        self.name@ == other.name@
    }
}

impl Eq for Repo {

}

impl Repo {
    /// The web address.
    pub fn get_url(&self) -> (url: &str)
        ensures
            url@ == self@.html_url,
    {
        self.html_url.as_str()
    }

    /// The SSH address.
    pub fn get_ssh_url(&self) -> (url: &str)
        ensures
            url@ == self@.ssh_url,
    {
        self.ssh_url.as_str()
    }

    /// The address that a run with these flags uses for the remote.
    pub fn select_url(&self, flags: u8) -> (url: &str)
        ensures
            url@ == self@.selected_url(flags),
    {
        if flags & FLAG_SSH != 0 {
            self.get_ssh_url()
        } else {
            self.get_url()
        }
    }

    /// Whether the namespace filter selects this repository.
    pub fn selected_by(&self, filter: &str) -> (yes: bool)
        ensures
            yes == self@.selected_by(filter@),
    {
        filter.is_empty() || same_text(self.namespace.as_str(), filter)
    }
}

} // verus!
