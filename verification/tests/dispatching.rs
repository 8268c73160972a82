use gitsync::action::Action;
use gitsync::actions::GitAction;
use gitsync::command::{ActionOutcome, CommandStatus, GitError};
use gitsync::dispatch::{dispatch, Job};
use gitsync::repo::{Repo, FLAG_SSH};
use gitsync::report::report;

fn repo(name: &str, namespace: &str) -> Repo {
    Repo {
        name: name.to_string(),
        html_url: format!("https://example.org/{}", name),
        ssh_url: format!("git@example.org:{}.git", name),
        namespace: namespace.to_string(),
        branch: "master".to_string(),
    }
}

fn names(jobs: &Vec<Job>) -> Vec<&str> {
    jobs.iter().map(|job| job.name()).collect()
}

fn run_all(jobs: &Vec<Job>, present: bool, status: fn() -> CommandStatus) -> Vec<ActionOutcome> {
    let mut outcomes = Vec::new();
    for job in jobs {
        let mut chain = job.begin(present);
        while chain.next().is_some() {
            chain.record(status());
        }
        outcomes.push(chain.outcome().unwrap());
    }
    outcomes
}

fn ok() -> CommandStatus {
    CommandStatus::Exited { success: true, code: Some(0) }
}

fn broken() -> CommandStatus {
    CommandStatus::Exited { success: false, code: Some(128) }
}

#[test]
fn filter_keeps_only_its_namespace() {
    let repos = vec![repo("a", "x"), repo("b", "y")];
    let jobs = dispatch(Action::Pull, repos, 0, "x");
    assert_eq!(names(&jobs), vec!["a"]);
    let outcomes = run_all(&jobs, true, ok);
    assert_eq!(outcomes.len(), 1);
    assert_eq!(outcomes, vec![ActionOutcome::Success { name: "a".to_string() }]);
}

#[test]
fn empty_filter_keeps_every_repository_in_order() {
    let repos = vec![repo("a", "x"), repo("b", "y"), repo("c", ""), repo("d", "x")];
    let jobs = dispatch(Action::Clone, repos, 0, "");
    assert_eq!(names(&jobs), vec!["a", "b", "c", "d"]);
}

#[test]
fn filter_that_matches_nothing_gives_no_unit() {
    let repos = vec![repo("a", "x"), repo("b", "y")];
    assert!(dispatch(Action::Clone, repos, 0, "z").is_empty());
    assert!(dispatch(Action::Clone, Vec::new(), 0, "").is_empty());
    assert!(dispatch(Action::Clone, Vec::new(), 0, "x").is_empty());
}

#[test]
fn filter_keeps_several_of_one_namespace_in_order() {
    let repos =
        vec![repo("a", "x"), repo("b", "y"), repo("c", "x"), repo("d", "xy"), repo("e", "x")];
    let jobs = dispatch(Action::Checkout, repos, FLAG_SSH, "x");
    assert_eq!(names(&jobs), vec!["a", "c", "e"]);
    for job in &jobs {
        assert_eq!(job.action(), Action::Checkout);
        assert_eq!(job.flags(), FLAG_SSH);
        assert_eq!(job.repo().namespace, "x");
    }
}

#[test]
fn each_unit_gives_one_outcome_whether_it_fails_or_not() {
    let repos = vec![repo("a", "x"), repo("b", "y"), repo("c", "x")];
    let jobs = dispatch(Action::Pull, repos, 0, "");
    let good = run_all(&jobs, true, ok);
    assert_eq!(good.iter().map(|o| o.name()).collect::<Vec<_>>(), vec!["a", "b", "c"]);
    assert!(good.iter().all(|o| o.is_success()));
    let bad = run_all(&jobs, true, broken);
    assert_eq!(bad.iter().map(|o| o.name()).collect::<Vec<_>>(), vec!["a", "b", "c"]);
    assert!(bad.iter().all(|o| !o.is_success()));
}

#[test]
fn a_unit_begins_the_plan_of_its_action() {
    let jobs = dispatch(Action::MirrorPull, vec![repo("a", "x")], FLAG_SSH, "");
    let chain = jobs[0].begin(false);
    assert_eq!(
        chain.next().map(|c| c.args.clone()),
        Some(vec![
            "clone".to_string(),
            "--mirror".to_string(),
            "git@example.org:a.git".to_string(),
            "a".to_string()
        ])
    );
    let chain = jobs[0].begin(true);
    assert_eq!(
        chain.next().map(|c| c.args.clone()),
        Some(vec![
            "-C".to_string(),
            "a".to_string(),
            "remote".to_string(),
            "update".to_string(),
            "--prune".to_string()
        ])
    );
}

#[test]
fn announcements_name_the_action_the_repository_and_its_web_address() {
    let line = |action: Action, flags: u8| {
        dispatch(action, vec![repo("a", "x")], flags, "")[0].announcement()
    };
    assert_eq!(line(Action::Clone, 0), "cloning a from https://example.org/a");
    assert_eq!(line(Action::Pull, 0), "pulling a from https://example.org/a");
    assert_eq!(line(Action::Checkout, 0), "checking out a from https://example.org/a");
    assert_eq!(line(Action::MirrorPull, 0), "pulling mirror a from https://example.org/a");
    assert_eq!(line(Action::MirrorPush, 0), "pushing mirror a from https://example.org/a");
    assert_eq!(line(Action::Clone, FLAG_SSH), "cloning a from https://example.org/a");
}

#[test]
fn listing_shows_the_name_and_the_selected_address() {
    let jobs = dispatch(Action::List, vec![repo("a", "x"), repo("b", "y")], 0, "");
    let lines: Vec<String> = jobs.iter().map(|job| job.announcement()).collect();
    assert_eq!(lines, vec!["a: https://example.org/a", "b: https://example.org/b"]);
    let jobs = dispatch(Action::List, vec![repo("a", "x"), repo("b", "y")], FLAG_SSH, "y");
    let lines: Vec<String> = jobs.iter().map(|job| job.announcement()).collect();
    assert_eq!(lines, vec!["b: git@example.org:b.git"]);
}

#[test]
fn listing_runs_no_command() {
    let jobs = dispatch(Action::List, vec![repo("a", "x")], 0, "");
    for present in [false, true] {
        let chain = jobs[0].begin(present);
        assert_eq!(chain.next(), None);
        assert_eq!(chain.outcome(), Some(ActionOutcome::Success { name: "a".to_string() }));
    }
}

#[test]
fn report_has_one_line_for_each_outcome() {
    let outcomes = vec![
        ActionOutcome::Success { name: "a".to_string() },
        ActionOutcome::Failure { name: "b".to_string(), cause: GitError::Failed { status: 128 } },
        ActionOutcome::Failure {
            name: "c".to_string(),
            cause: GitError::CommandSpawn { why: "git: not found".to_string() },
        },
    ];
    assert_eq!(
        report(&outcomes),
        vec![
            "successfully cloned a",
            "failed to clone b: returned an exit status of 128",
            "failed to clone c: unable to spawn command: git: not found",
        ]
    );
    assert_eq!(outcomes[0].report_line(), "successfully cloned a");
    assert!(report(&Vec::new()).is_empty());
}

struct Account {
    repos: Vec<Repo>,
}

impl GitAction for Account {
    fn get_repos(&self) -> Vec<Repo> {
        self.repos.clone()
    }
}

#[test]
fn each_operation_hands_out_the_units_of_its_action() {
    let account = Account { repos: vec![repo("a", "x"), repo("b", "y"), repo("c", "x")] };
    let check = |jobs: Vec<Job>, action: Action| {
        assert_eq!(names(&jobs), vec!["a", "c"]);
        assert!(jobs.iter().all(|job| job.action() == action && job.flags() == FLAG_SSH));
    };
    check(GitAction::list(&account, FLAG_SSH, "x"), Action::List);
    check(GitAction::clone(&account, FLAG_SSH, "x"), Action::Clone);
    check(GitAction::pull(&account, FLAG_SSH, "x"), Action::Pull);
    check(GitAction::checkout(&account, FLAG_SSH, "x"), Action::Checkout);
    check(GitAction::mirror_pull(&account, FLAG_SSH, "x"), Action::MirrorPull);
    check(GitAction::mirror_push(&account, FLAG_SSH, "x"), Action::MirrorPush);
}

#[test]
fn an_operation_on_an_empty_account_hands_out_nothing() {
    let account = Account { repos: Vec::new() };
    assert!(GitAction::pull(&account, 0, "").is_empty());
}

#[test]
fn a_failure_stays_with_its_own_repository() {
    let repos = vec![repo("a", "x"), repo("b", "x"), repo("c", "x"), repo("d", "y")];
    let jobs = dispatch(Action::Pull, repos, 0, "x");
    let present = [true, false, true];
    let scripts: Vec<Vec<CommandStatus>> = vec![
        vec![ok(), CommandStatus::Exited { success: false, code: Some(1) }],
        vec![ok()],
        vec![ok(), ok(), ok()],
    ];
    let mut issued = Vec::new();
    let mut outcomes = Vec::new();
    for ((job, present), script) in jobs.iter().zip(present).zip(scripts) {
        let mut chain = job.begin(present);
        let mut script = script.into_iter();
        let mut count = 0;
        while chain.next().is_some() {
            chain.record(script.next().unwrap());
            count += 1;
        }
        assert!(script.next().is_none());
        issued.push(count);
        outcomes.push(chain.outcome().unwrap());
    }
    assert_eq!(issued, vec![2, 1, 3]);
    assert_eq!(
        report(&outcomes),
        vec![
            "failed to clone a: returned an exit status of 1",
            "successfully cloned b",
            "successfully cloned c",
        ]
    );
}
