//! The actions that can be applied to a set of repositories.

use vstd::prelude::*;

use crate::text::same_text;

verus! {

/// One of the six uniform actions.
#[derive(Clone, Copy, Debug, PartialEq, Eq, Structural)]
pub enum Action {
    List,
    Clone,
    Pull,
    Checkout,
    MirrorPull,
    MirrorPush,
}

impl Action {
    /// The action that a token names, if it names one.
    pub open spec fn parse(token: Seq<char>) -> Option<Action> {
        if token == "list"@ {
            Some(Action::List)
        } else if token == "clone"@ {
            Some(Action::Clone)
        } else if token == "pull"@ {
            Some(Action::Pull)
        } else if token == "checkout"@ {
            Some(Action::Checkout)
        } else if token == "mirror_pull"@ {
            Some(Action::MirrorPull)
        } else if token == "mirror_push"@ {
            Some(Action::MirrorPush)
        } else {
            None
        }
    }

    /// The action that `input` names, or `input` itself where it names none.
    pub fn from(input: &str) -> (result: Result<Action, &str>)
        ensures
            match Action::parse(input@) {
                Some(action) => result == Ok::<Action, &str>(action),
                None => result is Err && result->Err_0@ == input@,
            },
    {
        if same_text(input, "list") {
            Ok(Action::List)
        } else if same_text(input, "clone") {
            Ok(Action::Clone)
        } else if same_text(input, "pull") {
            Ok(Action::Pull)
        } else if same_text(input, "checkout") {
            Ok(Action::Checkout)
        } else if same_text(input, "mirror_pull") {
            Ok(Action::MirrorPull)
        } else if same_text(input, "mirror_push") {
            Ok(Action::MirrorPush)
        } else {
            Err(input)
        }
    }
}

} // verus!
