use gitsync::action::Action;
use gitsync::command::GitCommand;
use gitsync::plan::plan;
use gitsync::repo::{Repo, FLAG_FORCE, FLAG_SSH};

const WEB: &str = "https://example.org/team/tool";
const SSH: &str = "git@example.org:team/tool.git";

fn sample() -> Repo {
    Repo {
        name: "tool".to_string(),
        html_url: WEB.to_string(),
        ssh_url: SSH.to_string(),
        namespace: "team".to_string(),
        branch: "main".to_string(),
    }
}

fn args(plan: &Vec<GitCommand>) -> Vec<Vec<&str>> {
    plan.iter().map(|c| c.args.iter().map(|a| a.as_str()).collect()).collect()
}

#[test]
fn list_runs_nothing() {
    assert!(plan(Action::List, &sample(), 0, true).is_empty());
    assert!(plan(Action::List, &sample(), 0, false).is_empty());
    assert!(plan(Action::List, &sample(), FLAG_SSH, false).is_empty());
}

#[test]
fn clone_of_a_missing_copy_clones_recursively() {
    let steps = plan(Action::Clone, &sample(), 0, false);
    assert_eq!(args(&steps), vec![vec!["clone", "--recursive", WEB, "tool"]]);
}

#[test]
fn clone_of_a_present_copy_runs_nothing() {
    assert!(plan(Action::Clone, &sample(), 0, true).is_empty());
    assert!(plan(Action::Clone, &sample(), FLAG_SSH, true).is_empty());
}

#[test]
fn pull_of_a_present_copy_pulls_and_updates_submodules() {
    let steps = plan(Action::Pull, &sample(), 0, true);
    assert_eq!(
        args(&steps),
        vec![
            vec!["-C", "tool", "pull"],
            vec!["-C", "tool", "submodule", "sync", "--recursive"],
            vec!["-C", "tool", "submodule", "update", "--init"],
        ]
    );
}

#[test]
fn pull_of_a_missing_copy_clones_recursively() {
    let steps = plan(Action::Pull, &sample(), FLAG_SSH, false);
    assert_eq!(args(&steps), vec![vec!["clone", "--recursive", SSH, "tool"]]);
}

#[test]
fn checkout_of_a_present_copy_takes_four_steps() {
    let steps = plan(Action::Checkout, &sample(), 0, true);
    assert_eq!(
        args(&steps),
        vec![
            vec!["-C", "tool", "fetch", "origin"],
            vec!["-C", "tool", "checkout", "-B", "main", "origin/main"],
            vec!["-C", "tool", "submodule", "sync", "--recursive"],
            vec!["-C", "tool", "submodule", "update", "--init", "--recursive"],
        ]
    );
}

#[test]
fn checkout_of_a_missing_copy_issues_one_clone() {
    let steps = plan(Action::Checkout, &sample(), 0, false);
    assert_eq!(steps.len(), 1);
    assert_eq!(args(&steps), vec![vec!["clone", "--recursive", WEB, "tool"]]);
}

#[test]
fn checkout_tracks_the_branch_of_the_descriptor() {
    let mut repo = sample();
    repo.branch = "release/1.x".to_string();
    let steps = plan(Action::Checkout, &repo, 0, true);
    assert_eq!(
        args(&steps)[1],
        vec!["-C", "tool", "checkout", "-B", "release/1.x", "origin/release/1.x"]
    );
}

#[test]
fn mirror_pull_of_a_missing_copy_clones_a_mirror() {
    let steps = plan(Action::MirrorPull, &sample(), 0, false);
    assert_eq!(args(&steps), vec![vec!["clone", "--mirror", WEB, "tool"]]);
}

#[test]
fn mirror_pull_of_a_present_copy_updates_and_prunes() {
    let steps = plan(Action::MirrorPull, &sample(), 0, true);
    assert_eq!(args(&steps), vec![vec!["-C", "tool", "remote", "update", "--prune"]]);
}

#[test]
fn mirror_push_is_the_same_with_and_without_a_copy() {
    let expected = vec![vec!["-C", "tool", "push", "--mirror", WEB]];
    assert_eq!(args(&plan(Action::MirrorPush, &sample(), 0, true)), expected);
    assert_eq!(args(&plan(Action::MirrorPush, &sample(), 0, false)), expected);
}

#[test]
fn with_the_ssh_flag_every_remote_is_the_ssh_address() {
    let repo = sample();
    for action in [Action::Clone, Action::Pull, Action::Checkout] {
        let steps = plan(action, &repo, FLAG_SSH, false);
        assert_eq!(args(&steps), vec![vec!["clone", "--recursive", SSH, "tool"]]);
    }
    assert_eq!(
        args(&plan(Action::MirrorPull, &repo, FLAG_SSH, false)),
        vec![vec!["clone", "--mirror", SSH, "tool"]]
    );
    for present in [false, true] {
        assert_eq!(
            args(&plan(Action::MirrorPush, &repo, FLAG_SSH, present)),
            vec![vec!["-C", "tool", "push", "--mirror", SSH]]
        );
    }
}

#[test]
fn without_the_ssh_flag_no_command_names_the_ssh_address() {
    let repo = sample();
    for action in [
        Action::List,
        Action::Clone,
        Action::Pull,
        Action::Checkout,
        Action::MirrorPull,
        Action::MirrorPush,
    ] {
        for present in [false, true] {
            for command in plan(action, &repo, 0, present) {
                assert!(!command.args.iter().any(|a| a == SSH));
            }
            for command in plan(action, &repo, FLAG_SSH, present) {
                assert!(!command.args.iter().any(|a| a == WEB));
            }
        }
    }
}

#[test]
fn the_force_flag_changes_no_plan() {
    let repo = sample();
    for action in [
        Action::List,
        Action::Clone,
        Action::Pull,
        Action::Checkout,
        Action::MirrorPull,
        Action::MirrorPush,
    ] {
        for present in [false, true] {
            for flags in [0, FLAG_SSH] {
                assert_eq!(
                    plan(action, &repo, flags, present),
                    plan(action, &repo, flags | FLAG_FORCE, present)
                );
            }
        }
    }
}
