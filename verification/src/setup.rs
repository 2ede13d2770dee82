//! Repository-synchronization decisions: which branches the setup pass
//! touches, how a branch is brought in line (including the one-time rename
//! of the legacy fork branch), authenticated clone locations, and the
//! commit messages written by the bot.

use vstd::prelude::*;
use vstd::string::StrSliceExecFns;
use vstd::string::StringExecFns;

use crate::strings::char_index_from;
use crate::strings::find_char_from;
use crate::strings::list_contains;
use crate::strings::list_has;
use crate::strings::str_eq;

verus! {

/// The branches the setup pass synchronizes in every project repository.
pub fn target_branches() -> (r: Vec<String>)
    ensures
        r@.len() == 4,
        r@[0]@ == "main"@,
        r@[1]@ == "ksu"@,
        r@[2]@ == "mksu"@,
        r@[3]@ == "resukisu"@,
{
    let mut v: Vec<String> = Vec::new();
    v.push(String::from_str("main"));
    v.push(String::from_str("ksu"));
    v.push(String::from_str("mksu"));
    v.push(String::from_str("resukisu"));
    v
}

/// What the setup pass does with one target branch, given the remote's
/// branch names.
#[derive(Debug, PartialEq, Eq, Structural)]
pub enum SyncAction {
    /// The remote still carries the legacy `sukisuultra` branch and no
    /// `resukisu`: rename it upstream, then proceed on the renamed branch.
    RenameLegacy,
    /// The branch exists remotely: check it out and refresh its files.
    Checkout,
    /// The branch does not exist remotely: leave it alone.
    Skip,
}

pub open spec fn sync_action_spec(branch: Seq<char>, remote: Seq<String>) -> SyncAction {
    if branch == "resukisu"@ && !list_has(remote, branch) && list_has(remote, "sukisuultra"@) {
        SyncAction::RenameLegacy
    } else if list_has(remote, branch) {
        SyncAction::Checkout
    } else {
        SyncAction::Skip
    }
}

/// The idempotent branch-synchronization decision: a second run after a
/// rename sees `resukisu` existing and simply checks it out.
pub fn branch_sync_action(branch: &str, remote: &Vec<String>) -> (r: SyncAction)
    ensures
        r == sync_action_spec(branch@, remote@),
{
    let exists = list_contains(remote, branch);
    if str_eq(branch, "resukisu") && !exists && list_contains(remote, "sukisuultra") {
        SyncAction::RenameLegacy
    } else if exists {
        SyncAction::Checkout
    } else {
        SyncAction::Skip
    }
}

/// The clone location of a project repository, with the token embedded
/// when one is supplied.
pub fn clone_url(token: &Option<String>, repo: &str) -> (r: String)
    ensures
        match *token {
            Some(t) => r@ == "https://"@ + t@ + "@github.com/"@ + repo@ + ".git"@,
            None => r@ == "https://github.com/"@ + repo@ + ".git"@,
        },
{
    match token {
        Some(t) => {
            let mut s = String::from_str("https://");
            s.append(t.as_str());
            s.append("@github.com/");
            s.append(repo);
            s.append(".git");
            s
        },
        None => {
            let mut s = String::from_str("https://github.com/");
            s.append(repo);
            s.append(".git");
            s
        },
    }
}

/// The commit message of one setup synchronization commit.
pub fn setup_commit_message(base: &str, branch: &str) -> (r: String)
    ensures
        r@ == base@ + " (branch: "@ + branch@ + ")"@,
{
    let mut s = String::from_str(base);
    s.append(" (branch: ");
    s.append(branch);
    s.append(")");
    s
}

/// The commit message recording a root-module update.
pub fn update_commit_message(variant: &str, commit: &str) -> (r: String)
    ensures
        r@ == "ci: update "@ + variant@ + " to "@ + commit@,
{
    let mut s = String::from_str("ci: update ");
    s.append(variant);
    s.append(" to ");
    s.append(commit);
    s
}

/// The owner part of an `owner/name` repository coordinate: everything up
/// to the first `/`, or the whole string when there is none.
pub open spec fn repo_owner_spec(s: Seq<char>) -> Seq<char> {
    let f = char_index_from(s, '/', 0);
    if f == -1 {
        s
    } else {
        s.subrange(0, f)
    }
}

pub fn repo_owner(repo: &str) -> (r: String)
    ensures
        r@ == repo_owner_spec(repo@),
{
    match find_char_from(repo, '/', 0) {
        None => String::from_str(repo),
        Some(f) => {
            let sub = repo.substring_char(0, f);
            String::from_str(sub)
        },
    }
}

/// The invocation that runs a fork's downloaded setup script inside a
/// checked-out source tree, with the fork's pass-through arguments.
pub fn fork_setup_command(setup_args: &Vec<String>) -> (r: Vec<String>)
    ensures
        r@.len() == setup_args@.len() + 2,
        r@[0]@ == "bash"@,
        r@[1]@ == "setup.sh"@,
        forall|i: int| 0 <= i < setup_args@.len() ==> (#[trigger] r@[2 + i])@
            == (setup_args@[i])@,
{
    let mut cmd: Vec<String> = Vec::new();
    cmd.push(String::from_str("bash"));
    cmd.push(String::from_str("setup.sh"));
    let mut i: usize = 0;
    while i < setup_args.len()
        invariant
            0 <= i <= setup_args@.len(),
            cmd@.len() == i + 2,
            cmd@[0]@ == "bash"@,
            cmd@[1]@ == "setup.sh"@,
            forall|j: int| 0 <= j < i ==> (#[trigger] cmd@[2 + j])@ == (setup_args@[j])@,
        decreases setup_args@.len() - i,
    {
        cmd.push(setup_args[i].clone());
        i = i + 1;
    }
    cmd
}

/// Leftover per-repository scripts that the setup pass deletes.
pub fn legacy_cleanup_files() -> (r: Vec<String>)
    ensures
        r@.len() == 4,
        r@[0]@ == "build.sh"@,
        r@[1]@ == "build_kernel.sh"@,
        r@[2]@ == "update.sh"@,
        r@[3]@ == "update-kernelsu.yml"@,
{
    let mut v: Vec<String> = Vec::new();
    v.push(String::from_str("build.sh"));
    v.push(String::from_str("build_kernel.sh"));
    v.push(String::from_str("update.sh"));
    v.push(String::from_str("update-kernelsu.yml"));
    v
}

} // verus!
