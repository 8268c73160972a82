//! The lines shown to the user: one when a unit of work is handed out, and
//! one for each outcome once all units have finished.

use vstd::prelude::*;

use crate::action::Action;
use crate::command::{ActionOutcome, ActionOutcomeView};
use crate::dispatch::{Job, JobView};

verus! {

impl Action {
    /// What the action is doing to a repository, as the progress line says
    /// it. `List` has no such line.
    pub open spec fn verb(self) -> Seq<char> {
        match self {
            Action::List => Seq::<char>::empty(),
            Action::Clone => "cloning"@,
            Action::Pull => "pulling"@,
            Action::Checkout => "checking out"@,
            Action::MirrorPull => "pulling mirror"@,
            Action::MirrorPush => "pushing mirror"@,
        }
    }
}

impl JobView {
    /// The line shown when the unit is handed out. For `List` it is the whole
    /// listing of the repository: its name and the address that the flags
    /// select. For the other actions it names the action, the repository and
    /// its web address.
    pub open spec fn announcement(self) -> Seq<char> {
        match self.action {
            Action::List => self.repo.name + ": "@ + self.repo.selected_url(self.flags),
            _ => self.action.verb() + " "@ + self.repo.name + " from "@ + self.repo.html_url,
        }
    }
}

impl ActionOutcomeView {
    /// The line that reports the outcome. Its wording is the same for every
    /// action.
    pub open spec fn report_line(self) -> Seq<char> {
        match self {
            ActionOutcomeView::Success { name } => "successfully cloned "@ + name,
            ActionOutcomeView::Failure { name, cause } => "failed to clone "@ + name + ": "@
                + cause.message(),
        }
    }
}

fn verb_text(action: Action) -> (text: &'static str)
    ensures
        text@ == action.verb(),
{
    match action {
        Action::List => {
            proof {
                reveal_strlit("");
            }
            ""
        },
        Action::Clone => "cloning",
        Action::Pull => "pulling",
        Action::Checkout => "checking out",
        Action::MirrorPull => "pulling mirror",
        Action::MirrorPush => "pushing mirror",
    }
}

impl Job {
    /// The line to show when the unit is handed out.
    pub fn announcement(&self) -> (line: String)
        ensures
            line@ == self@.announcement(),
    {
        let repo = self.repo();
        match self.action() {
            Action::List => {
                let mut line = repo.name.clone();
                line.append(": ");
                line.append(repo.select_url(self.flags()));
                line
            },
            _ => {
                let mut line = verb_text(self.action()).to_owned();
                line.append(" ");
                line.append(repo.name.as_str());
                line.append(" from ");
                line.append(repo.get_url());
                line
            },
        }
    }
}

impl ActionOutcome {
    /// The line that reports the outcome.
    pub fn report_line(&self) -> (line: String)
        ensures
            line@ == self@.report_line(),
    {
        match self {
            ActionOutcome::Success { name } => {
                let mut line = "successfully cloned ".to_owned();
                line.append(name.as_str());
                line
            },
            ActionOutcome::Failure { name, cause } => {
                let mut line = "failed to clone ".to_owned();
                line.append(name.as_str());
                line.append(": ");
                let reason = cause.message();
                line.append(reason.as_str());
                line
            },
        }
    }
}

/// The report of an invocation: the line of each outcome, in the order of
/// the outcomes.
pub fn report(outcomes: &Vec<ActionOutcome>) -> (lines: Vec<String>)
    ensures
        lines@.len() == outcomes@.len(),
        forall|i: int|
            0 <= i < outcomes@.len() ==> (#[trigger] lines@[i])@ == outcomes@[i]@.report_line(),
{
    let mut lines: Vec<String> = Vec::new();
    let mut i: usize = 0;
    while i < outcomes.len()
        invariant
            i <= outcomes@.len(),
            lines@.len() == i,
            forall|k: int| 0 <= k < i ==> (#[trigger] lines@[k])@ == outcomes@[k]@.report_line(),
        decreases outcomes@.len() - i,
    {
        lines.push(outcomes[i].report_line());
        i += 1;
    }
    lines
}

} // verus!
