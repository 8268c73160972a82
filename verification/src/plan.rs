//! The git commands that an action takes for one repository, depending on
//! whether its local copy is there.

use vstd::prelude::*;

use crate::action::Action;
use crate::command::GitCommand;
use crate::repo::{uses_ssh, Repo, RepoView, FLAG_FORCE};

verus! {

/// A command that git runs inside the local copy `name`.
pub open spec fn inside(name: Seq<char>, rest: Seq<Seq<char>>) -> Seq<Seq<char>> {
    seq!["-C"@, name] + rest
}

/// A clone of `url` into the directory `name`, in the given mode
/// (`--recursive` or `--mirror`).
pub open spec fn clone_command(mode: Seq<char>, url: Seq<char>, name: Seq<char>) -> Seq<
    Seq<char>,
> {
    seq!["clone"@, mode, url, name]
}

/// The steps that bring a present working copy up to date.
pub open spec fn pull_steps(name: Seq<char>) -> Seq<Seq<Seq<char>>> {
    seq![
        inside(name, seq!["pull"@]),
        inside(name, seq!["submodule"@, "sync"@, "--recursive"@]),
        inside(name, seq!["submodule"@, "update"@, "--init"@]),
    ]
}

/// The steps that put a present working copy on the head of `branch` as the
/// remote has it.
pub open spec fn checkout_steps(name: Seq<char>, branch: Seq<char>) -> Seq<Seq<Seq<char>>> {
    seq![
        inside(name, seq!["fetch"@, "origin"@]),
        inside(name, seq!["checkout"@, "-B"@, branch, "origin/"@ + branch]),
        inside(name, seq!["submodule"@, "sync"@, "--recursive"@]),
        inside(name, seq!["submodule"@, "update"@, "--init"@, "--recursive"@]),
    ]
}

/// The commands of `action` for `repo`, to be run in this order until one
/// fails, with `url` as the remote's address. `present` says whether a
/// directory named after the repository exists.
///
/// * `List` runs nothing.
/// * `Clone` clones recursively where the copy is absent, and runs nothing
///   where it is present.
/// * `Pull` and `Checkout` clone recursively where the copy is absent, and
///   update it where it is present.
/// * `MirrorPull` clones a mirror where the copy is absent, and updates its
///   remotes, pruning, where it is present.
/// * `MirrorPush` pushes a mirror in either case.
pub open spec fn steps(action: Action, repo: RepoView, url: Seq<char>, present: bool) -> Seq<
    Seq<Seq<char>>,
> {
    match action {
        Action::List => seq![],
        Action::Clone => if present {
            seq![]
        } else {
            seq![clone_command("--recursive"@, url, repo.name)]
        },
        Action::Pull => if present {
            pull_steps(repo.name)
        } else {
            seq![clone_command("--recursive"@, url, repo.name)]
        },
        Action::Checkout => if present {
            checkout_steps(repo.name, repo.branch)
        } else {
            seq![clone_command("--recursive"@, url, repo.name)]
        },
        Action::MirrorPull => if present {
            seq![inside(repo.name, seq!["remote"@, "update"@, "--prune"@])]
        } else {
            seq![clone_command("--mirror"@, url, repo.name)]
        },
        Action::MirrorPush => seq![inside(repo.name, seq!["push"@, "--mirror"@, url])],
    }
}

/// The commands of `action` for `repo` in a run with `flags`: its steps with
/// the address that the flags select.
pub open spec fn plan_of(action: Action, repo: RepoView, flags: u8, present: bool) -> Seq<
    Seq<Seq<char>>,
> {
    steps(action, repo, repo.selected_url(flags), present)
}

/// URL selection: in a run with the SSH flag every command that names the
/// remote names its SSH address, and in a run without it every such command
/// names its web address. The other address has no part in the plan.
pub proof fn lemma_url_selection(
    action: Action,
    repo: RepoView,
    flags: u8,
    present: bool,
    other: Seq<char>,
)
    ensures
        uses_ssh(flags) ==> plan_of(action, repo, flags, present) == steps(
            action,
            repo,
            repo.ssh_url,
            present,
        ),
        uses_ssh(flags) ==> plan_of(action, repo, flags, present) == plan_of(
            action,
            RepoView { html_url: other, ..repo },
            flags,
            present,
        ),
        !uses_ssh(flags) ==> plan_of(action, repo, flags, present) == steps(
            action,
            repo,
            repo.html_url,
            present,
        ),
        !uses_ssh(flags) ==> plan_of(action, repo, flags, present) == plan_of(
            action,
            RepoView { ssh_url: other, ..repo },
            flags,
            present,
        ),
{
}

/// Of the flags only the SSH bit has a part in the plan. In particular the
/// force flag is inert: a run with it plans what the run without it plans.
pub proof fn lemma_only_the_ssh_flag_matters(
    action: Action,
    repo: RepoView,
    flags: u8,
    others: u8,
    present: bool,
)
    requires
        uses_ssh(flags) == uses_ssh(others),
    ensures
        plan_of(action, repo, flags, present) == plan_of(action, repo, others, present),
        plan_of(action, repo, flags ^ FLAG_FORCE, present) == plan_of(
            action,
            repo,
            flags,
            present,
        ),
{
    assert(((flags ^ 2u8) & 1u8 != 0) == (flags & 1u8 != 0)) by (bit_vector);
}

/// A missing copy is always made by exactly one command, a clone, whatever
/// the action would do to a present copy; only a mirror push, which needs
/// no copy, and a listing do otherwise.
pub proof fn lemma_missing_copy_is_cloned(action: Action, repo: RepoView, flags: u8)
    requires
        action != Action::List,
        action != Action::MirrorPush,
    ensures
        plan_of(action, repo, flags, false) == seq![
            clone_command(
                if action == Action::MirrorPull {
                    "--mirror"@
                } else {
                    "--recursive"@
                },
                repo.selected_url(flags),
                repo.name,
            ),
        ],
{
}

/// The argument lists of a list of commands.
pub open spec fn command_views(commands: Seq<GitCommand>) -> Seq<Seq<Seq<char>>> {
    commands.map_values(|c: GitCommand| c@)
}

fn inside_copy(name: &str, rest: &Vec<&str>) -> (command: GitCommand)
    ensures
        command@ == inside(name@, rest@.map_values(|arg: &str| arg@)),
{
    let mut args: Vec<&str> = vec!["-C", name];
    let mut i: usize = 0;
    while i < rest.len()
        invariant
            i <= rest.len(),
            args@.len() == 2 + i,
            args@[0]@ == "-C"@,
            args@[1]@ == name@,
            forall|k: int| 0 <= k < i ==> args@[2 + k]@ == rest@[k]@,
        decreases rest.len() - i,
    {
        args.push(rest[i]);
        i += 1;
    }
    GitCommand::new(&args)
}

fn clone_from(mode: &str, url: &str, name: &str) -> (command: GitCommand)
    ensures
        command@ == clone_command(mode@, url@, name@),
{
    GitCommand::new(&vec!["clone", mode, url, name])
}

fn single(command: GitCommand) -> (commands: Vec<GitCommand>)
    ensures
        command_views(commands@) == seq![command@],
{
    vec![command]
}

fn update_working_copy(name: &str) -> (commands: Vec<GitCommand>)
    ensures
        command_views(commands@) == pull_steps(name@),
{
    let pull = inside_copy(name, &vec!["pull"]);
    let sync = inside_copy(name, &vec!["submodule", "sync", "--recursive"]);
    let update = inside_copy(name, &vec!["submodule", "update", "--init"]);
    proof {
        assert(pull@ =~= inside(name@, seq!["pull"@]));
        assert(sync@ =~= inside(name@, seq!["submodule"@, "sync"@, "--recursive"@]));
        assert(update@ =~= inside(name@, seq!["submodule"@, "update"@, "--init"@]));
    }
    vec![pull, sync, update]
}

fn check_out_working_copy(name: &str, branch: &str) -> (commands: Vec<GitCommand>)
    ensures
        command_views(commands@) == checkout_steps(name@, branch@),
{
    let mut remote_branch = "origin/".to_owned();
    remote_branch.append(branch);
    let fetch = inside_copy(name, &vec!["fetch", "origin"]);
    let checkout = inside_copy(name, &vec!["checkout", "-B", branch, remote_branch.as_str()]);
    let sync = inside_copy(name, &vec!["submodule", "sync", "--recursive"]);
    let update = inside_copy(name, &vec!["submodule", "update", "--init", "--recursive"]);
    proof {
        assert(fetch@ =~= inside(name@, seq!["fetch"@, "origin"@]));
        assert(checkout@ =~= inside(
            name@,
            seq!["checkout"@, "-B"@, branch@, "origin/"@ + branch@],
        ));
        assert(sync@ =~= inside(name@, seq!["submodule"@, "sync"@, "--recursive"@]));
        assert(update@ =~= inside(
            name@,
            seq!["submodule"@, "update"@, "--init"@, "--recursive"@],
        ));
    }
    vec![fetch, checkout, sync, update]
}

fn nothing() -> (commands: Vec<GitCommand>)
    ensures
        command_views(commands@) == Seq::<Seq<Seq<char>>>::empty(),
{
    Vec::new()
}

/// The commands of `action` for `repo` in a run with `flags`, to be run in
/// this order until one fails. `present` says whether a directory named
/// after the repository exists.
pub fn plan(action: Action, repo: &Repo, flags: u8, present: bool) -> (commands: Vec<GitCommand>)
    ensures
        command_views(commands@) == plan_of(action, repo@, flags, present),
{
    let url = repo.select_url(flags);
    let name = repo.name.as_str();
    match action {
        Action::List => nothing(),
        Action::Clone => if present {
            nothing()
        } else {
            single(clone_from("--recursive", url, name))
        },
        Action::Pull => if present {
            update_working_copy(name)
        } else {
            single(clone_from("--recursive", url, name))
        },
        Action::Checkout => if present {
            check_out_working_copy(name, repo.branch.as_str())
        } else {
            single(clone_from("--recursive", url, name))
        },
        Action::MirrorPull => if present {
            let update = inside_copy(name, &vec!["remote", "update", "--prune"]);
            assert(update@ =~= inside(name@, seq!["remote"@, "update"@, "--prune"@]));
            single(update)
        } else {
            single(clone_from("--mirror", url, name))
        },
        Action::MirrorPush => {
            let push = inside_copy(name, &vec!["push", "--mirror", url]);
            assert(push@ =~= inside(name@, seq!["push"@, "--mirror"@, url@]));
            single(push)
        },
    }
}

} // verus!
