//! One git command: its arguments, how its run ended, and the outcome that
//! this gives the repository it was run for.

use vstd::prelude::*;

use crate::text::{decimal, signed_text};

verus! {

/// Exit status reported when the process gave none, as after a signal.
pub const STATUS_UNAVAILABLE: i32 = 1;

/// Why a command failed.
#[derive(Debug, PartialEq, Eq)]
pub enum GitError {
    /// The process could not be started; `why` is the system's reason.
    CommandSpawn { why: String },
    /// The process ran and ended with a status other than success.
    Failed { status: i32 },
}

/// A cause of failure, as plain text and numbers.
pub enum GitErrorView {
    CommandSpawn { why: Seq<char> },
    Failed { status: i32 },
}

impl GitErrorView {
    /// The reason as shown to the user.
    pub open spec fn message(self) -> Seq<char> {
        match self {
            GitErrorView::CommandSpawn { why } => "unable to spawn command: "@ + why,
            GitErrorView::Failed { status } => "returned an exit status of "@ + decimal(
                status as int,
            ),
        }
    }
}

impl View for GitError {
    type V = GitErrorView;

    open spec fn view(&self) -> GitErrorView {
        match self {
            GitError::CommandSpawn { why } => GitErrorView::CommandSpawn { why: why@ },
            GitError::Failed { status } => GitErrorView::Failed { status: *status },
        }
    }
}

impl Clone for GitError {
    fn clone(&self) -> (copy: GitError)
        ensures
            copy == *self,
    {
        match self {
            GitError::CommandSpawn { why } => GitError::CommandSpawn { why: why.clone() },
            GitError::Failed { status } => GitError::Failed { status: *status },
        }
    }
}

impl GitError {
    /// The reason as shown to the user.
    pub fn message(&self) -> (text: String)
        ensures
            text@ == self@.message(),
    {
        match self {
            GitError::CommandSpawn { why } => {
                let mut text = "unable to spawn command: ".to_owned();
                text.append(why.as_str());
                text
            },
            GitError::Failed { status } => {
                let mut text = "returned an exit status of ".to_owned();
                let number = signed_text(*status);
                text.append(number.as_str());
                text
            },
        }
    }
}

/// How the attempt to run one command ended.
#[derive(Debug, PartialEq, Eq)]
pub enum CommandStatus {
    /// The process could not be started; `why` is the system's reason.
    NotStarted { why: String },
    /// The process ran to its end: whether it reported success, and its exit
    /// code where it has one.
    Exited { success: bool, code: Option<i32> },
}

/// The ending of a command, as plain text and numbers.
pub enum CommandStatusView {
    NotStarted { why: Seq<char> },
    Exited { success: bool, code: Option<i32> },
}

impl CommandStatusView {
    /// The failure that this ending stands for, if it is one. A process that
    /// ended without success and without an exit code counts as status
    /// `STATUS_UNAVAILABLE`.
    pub open spec fn failure(self) -> Option<GitErrorView> {
        match self {
            CommandStatusView::NotStarted { why } => Some(GitErrorView::CommandSpawn { why }),
            CommandStatusView::Exited { success, code } => if success {
                None
            } else {
                Some(
                    GitErrorView::Failed {
                        status: match code {
                            Some(status) => status,
                            None => STATUS_UNAVAILABLE,
                        },
                    },
                )
            },
        }
    }
}

impl View for CommandStatus {
    type V = CommandStatusView;

    open spec fn view(&self) -> CommandStatusView {
        match self {
            CommandStatus::NotStarted { why } => CommandStatusView::NotStarted { why: why@ },
            CommandStatus::Exited { success, code } => CommandStatusView::Exited {
                success: *success,
                code: *code,
            },
        }
    }
}

impl CommandStatus {
    /// The failure that this ending stands for, if it is one.
    pub fn failure(self) -> (cause: Option<GitError>)
        ensures
            match cause {
                Some(error) => self@.failure() == Some(error@),
                None => self@.failure() is None,
            },
    {
        match self {
            CommandStatus::NotStarted { why } => Some(GitError::CommandSpawn { why }),
            CommandStatus::Exited { success, code } => if success {
                None
            } else {
                match code {
                    Some(status) => Some(GitError::Failed { status }),
                    None => Some(GitError::Failed { status: STATUS_UNAVAILABLE }),
                }
            },
        }
    }
}

/// What applying an action did for one repository.
#[derive(Debug, PartialEq, Eq)]
pub enum ActionOutcome {
    Success { name: String },
    Failure { name: String, cause: GitError },
}

/// An outcome, as plain text and numbers.
pub enum ActionOutcomeView {
    Success { name: Seq<char> },
    Failure { name: Seq<char>, cause: GitErrorView },
}

impl ActionOutcomeView {
    /// The repository that the outcome belongs to.
    pub open spec fn name(self) -> Seq<char> {
        match self {
            ActionOutcomeView::Success { name } => name,
            ActionOutcomeView::Failure { name, .. } => name,
        }
    }
}

impl View for ActionOutcome {
    type V = ActionOutcomeView;

    open spec fn view(&self) -> ActionOutcomeView {
        match self {
            ActionOutcome::Success { name } => ActionOutcomeView::Success { name: name@ },
            ActionOutcome::Failure { name, cause } => ActionOutcomeView::Failure {
                name: name@,
                cause: cause@,
            },
        }
    }
}

impl ActionOutcome {
    /// The repository that the outcome belongs to.
    pub fn name(&self) -> (name: &str)
        ensures
            name@ == self@.name(),
    {
        match self {
            ActionOutcome::Success { name } => name.as_str(),
            ActionOutcome::Failure { name, .. } => name.as_str(),
        }
    }

    /// Whether the action succeeded for the repository.
    pub fn is_success(&self) -> (yes: bool)
        ensures
            yes == (self@ is Success),
    {
        match self {
            ActionOutcome::Success { .. } => true,
            ActionOutcome::Failure { .. } => false,
        }
    }
}

/// The outcome that one command gives its repository: success where the
/// command succeeded, else the failure with its cause.
pub open spec fn outcome_of(name: Seq<char>, status: CommandStatusView) -> ActionOutcomeView {
    match status.failure() {
        None => ActionOutcomeView::Success { name },
        Some(cause) => ActionOutcomeView::Failure { name, cause },
    }
}

/// Turns the ending of one git command into the outcome for the repository
/// `name`.
pub fn git_cmd(name: &str, status: CommandStatus) -> (outcome: ActionOutcome)
    ensures
        outcome@ == outcome_of(name@, status@),
{
    match status.failure() {
        None => ActionOutcome::Success { name: name.to_owned() },
        Some(cause) => ActionOutcome::Failure { name: name.to_owned(), cause },
    }
}

/// The arguments of one invocation of git.
#[derive(Debug, PartialEq, Eq)]
pub struct GitCommand {
    pub args: Vec<String>,
}

impl View for GitCommand {
    type V = Seq<Seq<char>>;

    open spec fn view(&self) -> Seq<Seq<char>> {
        self.args@.map_values(|arg: String| arg@)
    }
}

impl GitCommand {
    /// A command with the given arguments, in their order.
    pub fn new(args: &Vec<&str>) -> (command: GitCommand)
        ensures
            command@ == args@.map_values(|arg: &str| arg@),
    {
        let mut owned: Vec<String> = Vec::new();
        let mut i: usize = 0;
        while i < args.len()
            invariant
                i <= args.len(),
                owned.len() == i,
                forall|k: int| 0 <= k < i ==> owned@[k]@ == args@[k]@,
            decreases args.len() - i,
        {
            owned.push(args[i].to_owned());
            i += 1;
        }
        GitCommand { args: owned }
    }
}

} // verus!
