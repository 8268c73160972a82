use gitsync::catalog::Catalog;
use gitsync::github_impl::{GithubRepo, Listing, LAST_PAGE};
use gitsync::gitlab_impl::{repos_of, GitlabProject};
use gitsync::repo::Repo;

fn repo(name: &str, web: &str) -> Repo {
    Repo {
        name: name.to_string(),
        html_url: web.to_string(),
        ssh_url: format!("git@example.org:{}.git", name),
        namespace: String::new(),
        branch: "master".to_string(),
    }
}

fn github(name: &str, branch: &str) -> GithubRepo {
    GithubRepo {
        name: name.to_string(),
        html_url: format!("https://github.example/acme/{}", name),
        ssh_url: format!("git@github.example:acme/{}.git", name),
        default_branch: branch.to_string(),
    }
}

fn project(name: &str, namespace: &str, branch: Option<&str>) -> GitlabProject {
    GitlabProject {
        name: name.to_string(),
        http_url_to_repo: format!("https://gitlab.example/{}/{}.git", namespace, name),
        ssh_url_to_repo: format!("git@gitlab.example:{}/{}.git", namespace, name),
        namespace: namespace.to_string(),
        default_branch: branch.map(|b| b.to_string()),
    }
}

fn names(repos: &Vec<Repo>) -> Vec<&str> {
    repos.iter().map(|r| r.name.as_str()).collect()
}

#[test]
fn new_catalog_is_empty() {
    let catalog = Catalog::new();
    assert_eq!(catalog.len(), 0);
    assert!(!catalog.contains("a"));
    assert!(catalog.into_repos().is_empty());
}

#[test]
fn a_name_that_comes_twice_is_kept_once() {
    let mut catalog = Catalog::new();
    assert!(catalog.insert(repo("a", "first")));
    assert!(catalog.insert(repo("b", "other")));
    assert!(!catalog.insert(repo("a", "second")));
    assert_eq!(catalog.len(), 2);
    assert!(catalog.contains("a"));
    assert!(catalog.contains("b"));
    assert!(!catalog.contains("c"));
    let repos = catalog.into_repos();
    assert_eq!(names(&repos), vec!["a", "b"]);
    assert_eq!(repos.iter().filter(|r| r.name == "a").count(), 1);
    assert_eq!(repos[0].html_url, "first");
}

#[test]
fn github_repository_becomes_an_ungrouped_descriptor() {
    let repo = github("tool", "main").into_repo();
    assert_eq!(repo.name, "tool");
    assert_eq!(repo.html_url, "https://github.example/acme/tool");
    assert_eq!(repo.ssh_url, "git@github.example:acme/tool.git");
    assert_eq!(repo.namespace, "");
    assert_eq!(repo.branch, "main");
}

#[test]
fn listing_asks_page_after_page_from_zero() {
    let mut listing = Listing::new("acme");
    assert!(!listing.is_finished());
    assert_eq!(listing.request(), Some("orgs/acme/repos?page=0".to_string()));
    listing.receive(Some(vec![github("a", "main")]));
    assert_eq!(listing.request(), Some("orgs/acme/repos?page=1".to_string()));
    listing.receive(Some(vec![github("b", "main"), github("c", "dev")]));
    assert_eq!(listing.request(), Some("orgs/acme/repos?page=2".to_string()));
    listing.receive(Some(Vec::new()));
    assert!(listing.is_finished());
    assert_eq!(listing.request(), None);
    assert_eq!(names(&listing.into_repos()), vec!["a", "b", "c"]);
}

#[test]
fn listing_asks_the_same_page_until_it_is_answered() {
    let listing = Listing::new("acme");
    assert_eq!(listing.request(), Some("orgs/acme/repos?page=0".to_string()));
    assert_eq!(listing.request(), Some("orgs/acme/repos?page=0".to_string()));
}

#[test]
fn repository_listed_on_two_pages_is_kept_once() {
    let mut listing = Listing::new("acme");
    listing.receive(Some(vec![github("a", "main"), github("b", "main")]));
    listing.receive(Some(vec![github("a", "other"), github("b", "main"), github("c", "main")]));
    listing.receive(Some(vec![github("c", "main"), github("c", "main")]));
    listing.receive(None);
    let repos = listing.into_repos();
    assert_eq!(names(&repos), vec!["a", "b", "c"]);
    assert_eq!(repos[0].branch, "main");
}

#[test]
fn failed_request_ends_the_listing_with_what_was_gathered() {
    let mut listing = Listing::new("acme");
    listing.receive(Some(vec![github("a", "main")]));
    listing.receive(None);
    assert!(listing.is_finished());
    assert_eq!(listing.request(), None);
    assert_eq!(names(&listing.into_repos()), vec!["a"]);
}

#[test]
fn failed_first_request_gives_an_empty_catalog() {
    let mut listing = Listing::new("acme");
    listing.receive(None);
    assert!(listing.is_finished());
    assert!(listing.into_repos().is_empty());
}

#[test]
fn finished_listing_ignores_further_answers() {
    let mut listing = Listing::new("acme");
    listing.receive(Some(Vec::new()));
    listing.receive(Some(vec![github("late", "main")]));
    assert!(listing.is_finished());
    assert_eq!(listing.request(), None);
    assert!(listing.into_repos().is_empty());
}

#[test]
fn last_page_number_is_the_largest() {
    assert_eq!(LAST_PAGE, u64::MAX);
}

#[test]
fn gitlab_project_keeps_its_namespace_and_branch() {
    let repo = project("tool", "team/sub", Some("main")).into_repo();
    assert_eq!(repo.name, "tool");
    assert_eq!(repo.html_url, "https://gitlab.example/team/sub/tool.git");
    assert_eq!(repo.ssh_url, "git@gitlab.example:team/sub/tool.git");
    assert_eq!(repo.namespace, "team/sub");
    assert_eq!(repo.branch, "main");
}

#[test]
fn gitlab_project_without_a_default_branch_tracks_master() {
    let repo = project("tool", "team", None).into_repo();
    assert_eq!(repo.branch, "master");
}

#[test]
fn gitlab_answer_becomes_the_catalog() {
    let repos = repos_of(Some(vec![
        project("a", "x", Some("main")),
        project("b", "y", None),
        project("a", "z", Some("dev")),
    ]));
    assert_eq!(names(&repos), vec!["a", "b"]);
    assert_eq!(repos[0].namespace, "x");
    assert_eq!(repos[1].branch, "master");
}

#[test]
fn failed_gitlab_request_gives_no_repository() {
    assert!(repos_of(None).is_empty());
    assert!(repos_of(Some(Vec::new())).is_empty());
}
