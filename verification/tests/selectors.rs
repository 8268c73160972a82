use gitsync::action::Action;
use gitsync::config::{Config, ConfigError, GitService};

#[test]
fn every_action_token_is_recognised() {
    assert_eq!(Action::from("list"), Ok(Action::List));
    assert_eq!(Action::from("clone"), Ok(Action::Clone));
    assert_eq!(Action::from("pull"), Ok(Action::Pull));
    assert_eq!(Action::from("checkout"), Ok(Action::Checkout));
    assert_eq!(Action::from("mirror_pull"), Ok(Action::MirrorPull));
    assert_eq!(Action::from("mirror_push"), Ok(Action::MirrorPush));
}

#[test]
fn unknown_action_token_comes_back_verbatim() {
    assert_eq!(Action::from("fetch"), Err("fetch"));
    assert_eq!(Action::from("mirror-pull"), Err("mirror-pull"));
    assert_eq!(Action::from(" pull"), Err(" pull"));
}

#[test]
fn action_tokens_are_case_sensitive() {
    assert_eq!(Action::from("Clone"), Err("Clone"));
    assert_eq!(Action::from("LIST"), Err("LIST"));
}

#[test]
fn empty_action_token_is_rejected() {
    assert_eq!(Action::from(""), Err(""));
}

#[test]
fn action_token_with_a_known_prefix_is_rejected() {
    assert_eq!(Action::from("pulls"), Err("pulls"));
    assert_eq!(Action::from("pul"), Err("pul"));
    assert_eq!(Action::from("mirror_pus"), Err("mirror_pus"));
}

#[test]
fn both_providers_are_recognised() {
    assert_eq!(GitService::from("github"), Some(GitService::GitHub));
    assert_eq!(GitService::from("gitlab"), Some(GitService::GitLab));
}

#[test]
fn unknown_provider_is_none() {
    assert_eq!(GitService::from("bitbucket"), None);
    assert_eq!(GitService::from("GitHub"), None);
    assert_eq!(GitService::from(""), None);
}

#[test]
fn token_is_the_one_of_the_selected_provider() {
    let config =
        Config { github: Some("gh-token".to_string()), gitlab: Some("gl-token".to_string()) };
    assert_eq!(config.token(GitService::GitHub), Some("gh-token"));
    assert_eq!(config.token(GitService::GitLab), Some("gl-token"));
}

#[test]
fn missing_token_is_none_for_that_provider_only() {
    let config = Config { github: None, gitlab: Some("gl-token".to_string()) };
    assert_eq!(config.token(GitService::GitHub), None);
    assert_eq!(config.token(GitService::GitLab), Some("gl-token"));
    let config = Config { github: Some("gh-token".to_string()), gitlab: None };
    assert_eq!(config.token(GitService::GitHub), Some("gh-token"));
    assert_eq!(config.token(GitService::GitLab), None);
}

#[test]
fn config_errors_say_what_failed() {
    let io = ConfigError::IO { why: "No such file or directory (os error 2)".to_string() };
    assert_eq!(
        io.message(),
        "failed to read API config: No such file or directory (os error 2)"
    );
    let parse = ConfigError::Parse { why: "expected an equals, found eof at line 1".to_string() };
    assert_eq!(
        parse.message(),
        "failed to parse config: expected an equals, found eof at line 1"
    );
}
