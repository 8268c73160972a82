//! Providers and the credentials that the configuration holds for them.

use vstd::prelude::*;

use crate::text::same_text;

verus! {

/// A hosting provider.
#[derive(Clone, Copy, Debug, PartialEq, Eq, Structural)]
pub enum GitService {
    GitHub,
    GitLab,
}

impl GitService {
    /// The provider that a token names, if it names one.
    pub open spec fn parse(token: Seq<char>) -> Option<GitService> {
        if token == "github"@ {
            Some(GitService::GitHub)
        } else if token == "gitlab"@ {
            Some(GitService::GitLab)
        } else {
            None
        }
    }

    /// The provider that `input` names, if it names one.
    pub fn from(input: &str) -> (service: Option<GitService>)
        ensures
            service == GitService::parse(input@),
    {
        if same_text(input, "github") {
            Some(GitService::GitHub)
        } else if same_text(input, "gitlab") {
            Some(GitService::GitLab)
        } else {
            None
        }
    }
}

/// The credentials of a run: one optional token for each provider.
#[derive(Debug, PartialEq, Eq)]
pub struct Config {
    pub github: Option<String>,
    pub gitlab: Option<String>,
}

/// The credentials, as plain text.
pub struct ConfigView {
    pub github: Option<Seq<char>>,
    pub gitlab: Option<Seq<char>>,
}

impl ConfigView {
    /// The token that the configuration holds for `service`, if any.
    pub open spec fn token(self, service: GitService) -> Option<Seq<char>> {
        match service {
            GitService::GitHub => self.github,
            GitService::GitLab => self.gitlab,
        }
    }
}

impl View for Config {
    type V = ConfigView;

    open spec fn view(&self) -> ConfigView {
        ConfigView {
            github: match self.github {
                Some(token) => Some(token@),
                None => None,
            },
            gitlab: match self.gitlab {
                Some(token) => Some(token@),
                None => None,
            },
        }
    }
}

impl Config {
    /// The token for `service`, or `None` where the configuration holds none
    /// for it: a run against that provider cannot go on then.
    pub fn token(&self, service: GitService) -> (token: Option<&str>)
        ensures
            match token {
                Some(t) => self@.token(service) == Some(t@),
                None => self@.token(service) is None,
            },
    {
        let held = match service {
            GitService::GitHub => &self.github,
            GitService::GitLab => &self.gitlab,
        };
        match held {
            Some(token) => Some(token.as_str()),
            None => None,
        }
    }
}

/// Why the configuration could not be had.
#[derive(Debug, PartialEq, Eq)]
pub enum ConfigError {
    /// The file could not be read; `why` is the system's reason.
    IO { why: String },
    /// The file's content is not a configuration; `why` is the parser's
    /// reason.
    Parse { why: String },
}

/// A reason for a missing configuration, as plain text.
pub enum ConfigErrorView {
    IO { why: Seq<char> },
    Parse { why: Seq<char> },
}

impl ConfigErrorView {
    /// The reason as shown to the user.
    pub open spec fn message(self) -> Seq<char> {
        match self {
            ConfigErrorView::IO { why } => "failed to read API config: "@ + why,
            ConfigErrorView::Parse { why } => "failed to parse config: "@ + why,
        }
    }
}

impl View for ConfigError {
    type V = ConfigErrorView;

    open spec fn view(&self) -> ConfigErrorView {
        match self {
            ConfigError::IO { why } => ConfigErrorView::IO { why: why@ },
            ConfigError::Parse { why } => ConfigErrorView::Parse { why: why@ },
        }
    }
}

impl ConfigError {
    /// The reason as shown to the user.
    pub fn message(&self) -> (text: String)
        ensures
            text@ == self@.message(),
    {
        match self {
            ConfigError::IO { why } => {
                let mut text = "failed to read API config: ".to_owned();
                text.append(why.as_str());
                text
            },
            ConfigError::Parse { why } => {
                let mut text = "failed to parse config: ".to_owned();
                text.append(why.as_str());
                text
            },
        }
    }
}

} // verus!
