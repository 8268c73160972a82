//! The repositories of a GitLab account, from the projects that GitLab
//! lists.

use vstd::prelude::*;

use crate::catalog::{distinct_names, insert_all, Catalog};
use crate::repo::{repo_views, Repo, RepoView};

verus! {

/// What a listing reads of a GitLab project.
#[derive(Debug, PartialEq, Eq)]
pub struct GitlabProject {
    pub name: String,
    pub http_url_to_repo: String,
    pub ssh_url_to_repo: String,
    /// Full path of the namespace that the project lives in.
    pub namespace: String,
    /// The default branch, where the project has one.
    pub default_branch: Option<String>,
}

/// What a listing reads of a project, as plain text.
pub struct GitlabProjectView {
    pub name: Seq<char>,
    pub http_url_to_repo: Seq<char>,
    pub ssh_url_to_repo: Seq<char>,
    pub namespace: Seq<char>,
    pub default_branch: Option<Seq<char>>,
}

impl GitlabProjectView {
    /// The descriptor of the project. A project without a default branch
    /// tracks `master`.
    pub open spec fn repo(self) -> RepoView {
        RepoView {
            name: self.name,
            html_url: self.http_url_to_repo,
            ssh_url: self.ssh_url_to_repo,
            namespace: self.namespace,
            branch: match self.default_branch {
                Some(branch) => branch,
                None => "master"@,
            },
        }
    }
}

impl View for GitlabProject {
    type V = GitlabProjectView;

    open spec fn view(&self) -> GitlabProjectView {
        GitlabProjectView {
            name: self.name@,
            http_url_to_repo: self.http_url_to_repo@,
            ssh_url_to_repo: self.ssh_url_to_repo@,
            namespace: self.namespace@,
            default_branch: match self.default_branch {
                Some(branch) => Some(branch@),
                None => None,
            },
        }
    }
}

impl GitlabProject {
    /// The descriptor of the project.
    pub fn into_repo(self) -> (repo: Repo)
        ensures
            repo@ == self@.repo(),
    {
        let branch = match self.default_branch {
            Some(branch) => branch,
            None => "master".to_owned(),
        };
        Repo {
            name: self.name,
            html_url: self.http_url_to_repo,
            ssh_url: self.ssh_url_to_repo,
            namespace: self.namespace,
            branch,
        }
    }
}

/// The descriptors of a list of projects.
pub open spec fn project_repos(projects: Seq<GitlabProject>) -> Seq<RepoView> {
    projects.map_values(|p: GitlabProject| p@.repo())
}

/// The catalog that an answer of GitLab gives: the descriptors of the
/// projects, each name once, or nothing where the request failed.
pub open spec fn catalog_of(answer: Option<Seq<RepoView>>) -> Seq<RepoView> {
    match answer {
        Some(projects) => insert_all(Seq::<RepoView>::empty(), projects),
        None => Seq::<RepoView>::empty(),
    }
}

/// The repositories of an account, from the answer to the request for its
/// projects: the list, or `None` where the request failed.
pub fn repos_of(answer: Option<Vec<GitlabProject>>) -> (repos: Vec<Repo>)
    ensures
        repo_views(repos@) == catalog_of(
            match answer {
                Some(projects) => Some(project_repos(projects@)),
                None => None,
            },
        ),
        distinct_names(repo_views(repos@)),
        answer is None ==> repos@.len() == 0,
{
    let mut catalog = Catalog::new();
    match answer {
        Some(projects) => {
            let ghost offered = project_repos(projects@);
            for project in it: projects.into_iter()
                invariant
                    it.seq() == projects@,
                    offered == project_repos(projects@),
                    catalog@ == insert_all(
                        Seq::<RepoView>::empty(),
                        offered.take(it.index() as int),
                    ),
            {
                proof {
                    assert(offered.take(it.index() + 1).drop_last() =~= offered.take(
                        it.index() as int,
                    ));
                }
                catalog.insert(project.into_repo());
            }
            proof {
                assert(offered.take(projects@.len() as int) =~= offered);
            }
        },
        None => {},
    }
    catalog.into_repos()
}

} // verus!
