//! The catalog of an account: the repositories that a provider lists, each
//! name once.

use vstd::prelude::*;

use crate::repo::{repo_views, Repo, RepoView};
use crate::text::same_text;

verus! {

/// Whether a repository of that name is in the list.
pub open spec fn has_name(repos: Seq<RepoView>, name: Seq<char>) -> bool {
    exists|i: int| 0 <= i < repos.len() && (#[trigger] repos[i]).name == name
}

/// Whether no name occurs twice in the list.
pub open spec fn distinct_names(repos: Seq<RepoView>) -> bool {
    forall|i: int, j: int|
        0 <= i < j < repos.len() ==> (#[trigger] repos[i]).name != (#[trigger] repos[j]).name
}

/// Whether exactly one repository of the list has that name.
pub open spec fn names_once(repos: Seq<RepoView>, name: Seq<char>) -> bool {
    exists|i: int|
        0 <= i < repos.len() && (#[trigger] repos[i]).name == name && forall|j: int|
            0 <= j < repos.len() && (#[trigger] repos[j]).name == name ==> j == i
}

/// The list with `repo` added at its end, unless a repository of that name
/// is in it already: then the list as it was.
pub open spec fn insert(repos: Seq<RepoView>, repo: RepoView) -> Seq<RepoView> {
    if has_name(repos, repo.name) {
        repos
    } else {
        repos.push(repo)
    }
}

/// The list after the repositories of `more` were inserted one by one, in
/// their order.
pub open spec fn insert_all(repos: Seq<RepoView>, more: Seq<RepoView>) -> Seq<RepoView>
    decreases more.len(),
{
    if more.len() == 0 {
        repos
    } else {
        insert(insert_all(repos, more.drop_last()), more.last())
    }
}

/// Inserting keeps every name that was there, adds the new one, and adds no
/// other.
pub proof fn lemma_insert_names(repos: Seq<RepoView>, repo: RepoView, name: Seq<char>)
    ensures
        has_name(insert(repos, repo), name) <==> has_name(repos, name) || repo.name == name,
{
    let after = insert(repos, repo);
    if has_name(repos, name) {
        let i = choose|i: int| 0 <= i < repos.len() && (#[trigger] repos[i]).name == name;
        assert(after[i].name == name);
    }
    if repo.name == name && !has_name(repos, name) {
        assert(after[repos.len() as int].name == name);
    }
}

/// Inserting into a list without duplicates gives a list without
/// duplicates.
pub proof fn lemma_insert_keeps_names_distinct(repos: Seq<RepoView>, repo: RepoView)
    requires
        distinct_names(repos),
    ensures
        distinct_names(insert(repos, repo)),
{
}

/// A catalog built by insertion holds the names of everything that was
/// offered to it, and no name twice.
pub proof fn lemma_insert_all_names(repos: Seq<RepoView>, more: Seq<RepoView>, name: Seq<char>)
    requires
        distinct_names(repos),
    ensures
        distinct_names(insert_all(repos, more)),
        has_name(insert_all(repos, more), name) <==> has_name(repos, name) || has_name(more, name),
    decreases more.len(),
{
    if more.len() > 0 {
        let front = more.drop_last();
        lemma_insert_all_names(repos, front, name);
        lemma_insert_keeps_names_distinct(insert_all(repos, front), more.last());
        lemma_insert_names(insert_all(repos, front), more.last(), name);
        if has_name(more, name) {
            let i = choose|i: int| 0 <= i < more.len() && (#[trigger] more[i]).name == name;
            if i < front.len() {
                assert(front[i].name == name);
            }
        }
    }
}

/// Inserting two lists one after the other is inserting them joined: what
/// a catalog holds depends on the order in which repositories came, not on
/// how they were split into pages.
pub proof fn lemma_insert_all_joined(
    repos: Seq<RepoView>,
    first: Seq<RepoView>,
    second: Seq<RepoView>,
)
    ensures
        insert_all(insert_all(repos, first), second) == insert_all(repos, first + second),
    decreases second.len(),
{
    if second.len() > 0 {
        lemma_insert_all_joined(repos, first, second.drop_last());
        assert((first + second).drop_last() =~= first + second.drop_last());
    }
}

/// In a list without duplicates a name that occurs at all occurs exactly
/// once.
pub proof fn lemma_distinct_names_occur_once(repos: Seq<RepoView>, name: Seq<char>)
    requires
        distinct_names(repos),
        has_name(repos, name),
    ensures
        names_once(repos, name),
{
}

/// Deduplication: however often a provider lists a name, on one page or
/// on several, the catalog built from its pages holds exactly one
/// repository of that name.
pub proof fn lemma_listed_names_occur_once(offered: Seq<RepoView>, name: Seq<char>)
    requires
        has_name(offered, name),
    ensures
        names_once(insert_all(Seq::<RepoView>::empty(), offered), name),
{
    lemma_insert_all_names(Seq::<RepoView>::empty(), offered, name);
    lemma_distinct_names_occur_once(insert_all(Seq::<RepoView>::empty(), offered), name);
}

proof fn lemma_push_keeps_names_distinct(repos: Seq<Repo>, repo: Repo)
    requires
        distinct_names(repo_views(repos)),
        !has_name(repo_views(repos), repo@.name),
    ensures
        repo_views(repos.push(repo)) == insert(repo_views(repos), repo@),
        distinct_names(repo_views(repos.push(repo))),
{
    assert(repo_views(repos.push(repo)) =~= repo_views(repos).push(repo@));
    lemma_insert_keeps_names_distinct(repo_views(repos), repo@);
}

/// A set of repositories, keyed by name, in the order in which the names
/// first came.
#[derive(Debug)]
pub struct Catalog {
    repos: Vec<Repo>,
}

impl View for Catalog {
    type V = Seq<RepoView>;

    closed spec fn view(&self) -> Seq<RepoView> {
        repo_views(self.repos@)
    }
}

impl Catalog {
    #[verifier::type_invariant]
    spec fn names_are_distinct(self) -> bool {
        distinct_names(repo_views(self.repos@))
    }

    /// The empty catalog.
    pub fn new() -> (catalog: Catalog)
        ensures
            catalog@ == Seq::<RepoView>::empty(),
    {
        let catalog = Catalog { repos: Vec::new() };
        catalog
    }

    /// The number of repositories in the catalog.
    pub fn len(&self) -> (len: usize)
        ensures
            len == self@.len(),
    {
        self.repos.len()
    }

    /// Whether a repository of that name is in the catalog.
    pub fn contains(&self, name: &str) -> (found: bool)
        ensures
            found == has_name(self@, name@),
    {
        let mut i: usize = 0;
        while i < self.repos.len()
            invariant
                i <= self.repos@.len(),
                forall|k: int| 0 <= k < i ==> (#[trigger] self@[k]).name != name@,
            decreases self.repos@.len() - i,
        {
            if same_text(self.repos[i].name.as_str(), name) {
                assert(self@[i as int].name == name@);
                return true;
            }
            i += 1;
        }
        false
    }

    /// Adds `repo` unless a repository of its name is there already; says
    /// whether it was added.
    pub fn insert(&mut self, repo: Repo) -> (added: bool)
        ensures
            final(self)@ == insert(old(self)@, repo@),
            added == !has_name(old(self)@, repo@.name),
            distinct_names(final(self)@),
    {
        proof {
            use_type_invariant(&*self);
        }
        if self.contains(repo.name.as_str()) {
            false
        } else {
            proof {
                lemma_push_keeps_names_distinct(self.repos@, repo);
            }
            // The list is extended outside of `self`, which holds an empty
            // list meanwhile: a push may unwind, a swap does not.
            let mut repos: Vec<Repo> = Vec::new();
            core::mem::swap(&mut self.repos, &mut repos);
            repos.push(repo);
            core::mem::swap(&mut self.repos, &mut repos);
            true
        }
    }

    /// The repositories of the catalog, no name twice.
    pub fn into_repos(self) -> (repos: Vec<Repo>)
        ensures
            repo_views(repos@) == self@,
            repos@.len() == self@.len(),
            distinct_names(repo_views(repos@)),
    {
        proof {
            use_type_invariant(&self);
        }
        self.repos
    }
}

} // verus!
