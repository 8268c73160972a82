//! Listing the repositories of a GitHub organisation, page by page.
//!
//! A `Listing` holds the decisions: which page to ask for next, and what an
//! answer adds to the catalog. Its user fetches the pages.

use vstd::prelude::*;

use crate::catalog::{
    distinct_names, has_name, insert_all, lemma_distinct_names_occur_once, lemma_insert_all_names,
    names_once, Catalog,
};
use crate::repo::{repo_views, Repo, RepoView};
use crate::text::{decimal, unsigned_text};

verus! {

/// The number of the last page that a listing asks for.
pub const LAST_PAGE: u64 = 0xffff_ffff_ffff_ffff;

/// A repository as GitHub describes it.
#[derive(Debug, PartialEq, Eq)]
pub struct GithubRepo {
    pub name: String,
    pub html_url: String,
    pub ssh_url: String,
    pub default_branch: String,
}

/// What GitHub says of a repository, as plain text.
pub struct GithubRepoView {
    pub name: Seq<char>,
    pub html_url: Seq<char>,
    pub ssh_url: Seq<char>,
    pub default_branch: Seq<char>,
}

impl GithubRepoView {
    /// The descriptor of the repository. GitHub has no grouping below the
    /// organisation, so the namespace is empty.
    pub open spec fn repo(self) -> RepoView {
        RepoView {
            name: self.name,
            html_url: self.html_url,
            ssh_url: self.ssh_url,
            namespace: Seq::<char>::empty(),
            branch: self.default_branch,
        }
    }
}

impl View for GithubRepo {
    type V = GithubRepoView;

    open spec fn view(&self) -> GithubRepoView {
        GithubRepoView {
            name: self.name@,
            html_url: self.html_url@,
            ssh_url: self.ssh_url@,
            default_branch: self.default_branch@,
        }
    }
}

impl GithubRepo {
    /// The descriptor of the repository.
    pub fn into_repo(self) -> (repo: Repo)
        ensures
            repo@ == self@.repo(),
    {
        Repo {
            name: self.name,
            html_url: self.html_url,
            ssh_url: self.ssh_url,
            namespace: String::new(),
            branch: self.default_branch,
        }
    }
}

/// The descriptors of a page of repositories.
pub open spec fn page_repos(page: Seq<GithubRepo>) -> Seq<RepoView> {
    page.map_values(|r: GithubRepo| r@.repo())
}

/// The endpoint that serves page `page` of the repositories of `org`.
pub open spec fn endpoint(org: Seq<char>, page: nat) -> Seq<char> {
    "orgs/"@ + org + "/repos?page="@ + decimal(page as int)
}

/// The state of a listing: the organisation, the number of the page to ask
/// for next, the repositories gathered so far, and whether it has ended.
pub struct ListingView {
    pub org: Seq<char>,
    pub page: nat,
    pub repos: Seq<RepoView>,
    pub finished: bool,
}

impl ListingView {
    /// A listing of `org` that has asked for nothing yet. Pages count from
    /// zero.
    pub open spec fn start(org: Seq<char>) -> ListingView {
        ListingView { org, page: 0, repos: Seq::<RepoView>::empty(), finished: false }
    }

    /// The endpoint to ask next, if the listing has not ended.
    pub open spec fn request(self) -> Option<Seq<char>> {
        if self.finished {
            None
        } else {
            Some(endpoint(self.org, self.page))
        }
    }

    /// The state after the answer to `request`: a page with repositories is
    /// taken into the catalog and the next page is due; an empty page, or no
    /// page at all because the request failed, ends the listing with what was
    /// gathered. So does page number `LAST_PAGE`. A listing that has ended
    /// ignores the answer.
    pub open spec fn receive(self, answer: Option<Seq<RepoView>>) -> ListingView {
        if self.finished {
            self
        } else {
            match answer {
                Some(page) => if page.len() > 0 {
                    ListingView {
                        repos: insert_all(self.repos, page),
                        page: if self.page < LAST_PAGE {
                            self.page + 1
                        } else {
                            self.page
                        },
                        finished: self.page >= LAST_PAGE,
                        ..self
                    }
                } else {
                    ListingView { finished: true, ..self }
                },
                None => ListingView { finished: true, ..self },
            }
        }
    }

    /// The state after the answers `answers` arrived in this order.
    pub open spec fn receive_all(self, answers: Seq<Option<Seq<RepoView>>>) -> ListingView
        decreases answers.len(),
    {
        if answers.len() == 0 {
            self
        } else {
            self.receive(answers[0]).receive_all(answers.drop_first())
        }
    }
}

/// A listing that has ended asks for nothing and keeps what it gathered,
/// whatever arrives.
pub proof fn lemma_finished_listing_is_final(
    listing: ListingView,
    answers: Seq<Option<Seq<RepoView>>>,
)
    requires
        listing.finished,
    ensures
        listing.request() is None,
        listing.receive_all(answers) == listing,
    decreases answers.len(),
{
    if answers.len() > 0 {
        lemma_finished_listing_is_final(listing, answers.drop_first());
    }
}

/// A page with repositories is taken whole: each name on it is in the
/// catalog afterwards exactly once, however often the page or earlier pages
/// held it, and every name gathered before is still there.
pub proof fn lemma_page_is_taken(listing: ListingView, page: Seq<RepoView>, name: Seq<char>)
    requires
        !listing.finished,
        distinct_names(listing.repos),
        has_name(page, name) || has_name(listing.repos, name),
    ensures
        distinct_names(listing.receive(Some(page)).repos),
        names_once(listing.receive(Some(page)).repos, name),
{
    lemma_insert_all_names(listing.repos, page, name);
    lemma_distinct_names_occur_once(listing.receive(Some(page)).repos, name);
}

/// Whatever the pages hold, a listing never holds a name twice.
pub proof fn lemma_listing_names_are_distinct(
    listing: ListingView,
    answers: Seq<Option<Seq<RepoView>>>,
)
    requires
        distinct_names(listing.repos),
    ensures
        distinct_names(listing.receive_all(answers).repos),
    decreases answers.len(),
{
    if answers.len() > 0 {
        let after = listing.receive(answers[0]);
        if !listing.finished && answers[0] is Some {
            lemma_insert_all_names(listing.repos, answers[0]->Some_0, Seq::<char>::empty());
        }
        lemma_listing_names_are_distinct(after, answers.drop_first());
    }
}

/// The first empty page, and the first request that fails, ends the
/// listing: no page after it is asked for, and none is taken.
pub proof fn lemma_listing_ends_at_first_gap(
    listing: ListingView,
    gap: Option<Seq<RepoView>>,
    answers: Seq<Option<Seq<RepoView>>>,
)
    requires
        gap is None || gap->Some_0.len() == 0,
    ensures
        listing.receive(gap).request() is None,
        listing.receive(gap).repos == listing.repos,
        listing.receive(gap).receive_all(answers).repos == listing.repos,
{
    lemma_finished_listing_is_final(listing.receive(gap), answers);
}

/// A listing of the repositories of one organisation, in progress.
#[derive(Debug)]
pub struct Listing {
    org: String,
    page: u64,
    catalog: Catalog,
    finished: bool,
}

impl View for Listing {
    type V = ListingView;

    closed spec fn view(&self) -> ListingView {
        ListingView {
            org: self.org@,
            page: self.page as nat,
            repos: self.catalog@,
            finished: self.finished,
        }
    }
}

impl Listing {
    /// A listing of `org` that has asked for nothing yet.
    pub fn new(org: &str) -> (listing: Listing)
        ensures
            listing@ == ListingView::start(org@),
    {
        Listing { org: org.to_owned(), page: 0, catalog: Catalog::new(), finished: false }
    }

    /// The endpoint to ask next, or `None` when the listing has ended.
    pub fn request(&self) -> (endpoint: Option<String>)
        ensures
            match endpoint {
                Some(e) => self@.request() == Some(e@),
                None => self@.request() is None,
            },
    {
        if self.finished {
            None
        } else {
            let mut endpoint = "orgs/".to_owned();
            endpoint.append(self.org.as_str());
            endpoint.append("/repos?page=");
            let number = unsigned_text(self.page);
            endpoint.append(number.as_str());
            Some(endpoint)
        }
    }

    /// Takes the answer to `request`: the repositories of the page, or
    /// `None` where the request failed or gave no list.
    pub fn receive(&mut self, answer: Option<Vec<GithubRepo>>)
        ensures
            final(self)@ == old(self)@.receive(
                match answer {
                    Some(page) => Some(page_repos(page@)),
                    None => None,
                },
            ),
    {
        if self.finished {
            return ;
        }
        match answer {
            Some(page) => {
                if page.len() > 0 {
                    let ghost offered = page_repos(page@);
                    let ghost before = self.catalog@;
                    for item in it: page.into_iter()
                        invariant
                            it.seq() == page@,
                            offered == page_repos(page@),
                            self.catalog@ == insert_all(before, offered.take(it.index() as int)),
                            self.org == old(self).org,
                            self.page == old(self).page,
                            self.finished == old(self).finished,
                    {
                        proof {
                            assert(offered.take(it.index() + 1).drop_last() =~= offered.take(
                                it.index() as int,
                            ));
                        }
                        self.catalog.insert(item.into_repo());
                    }
                    proof {
                        assert(offered.take(page@.len() as int) =~= offered);
                    }
                    if self.page < LAST_PAGE {
                        self.page = self.page + 1;
                    } else {
                        self.finished = true;
                    }
                } else {
                    self.finished = true;
                }
            },
            None => {
                self.finished = true;
            },
        }
    }

    /// Whether the listing has ended.
    pub fn is_finished(&self) -> (finished: bool)
        ensures
            finished == self@.finished,
    {
        self.finished
    }

    /// The repositories gathered, each name once.
    pub fn into_repos(self) -> (repos: Vec<Repo>)
        ensures
            repo_views(repos@) == self@.repos,
            repos@.len() == self@.repos.len(),
            distinct_names(repo_views(repos@)),
    {
        self.catalog.into_repos()
    }
}

} // verus!
