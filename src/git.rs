//! The git commands issued while publishing, each with its fixed shape.
use vstd::prelude::*;
use vstd::utf8::{decode_utf8, valid_utf8};

use crate::cmd::{action_matches, call, call_on_path, strings_view, Action, Invocation};
use crate::error::FatalError;

verus! {

pub open spec fn init_tokens() -> Seq<Seq<char>> {
    seq!["git"@, "init"@]
}

pub open spec fn add_all_tokens() -> Seq<Seq<char>> {
    seq!["git"@, "add"@, "."@]
}

/// `git commit [-S] -am <msg>`: the signing flag only when signing.
pub open spec fn commit_tokens(msg: Seq<char>, sign: bool) -> Seq<Seq<char>> {
    seq!["git"@, "commit"@] + (if sign {
        seq!["-S"@]
    } else {
        Seq::empty()
    }) + seq!["-am"@, msg]
}

pub open spec fn force_push_tokens(remote: Seq<char>, refspec: Seq<char>) -> Seq<Seq<char>> {
    seq!["git"@, "push"@, "-f"@, remote, refspec]
}

/// `git remote get-url <remote>`, always run for real in the current directory.
pub open spec fn remote_url_invocation(inv: Invocation, remote: Seq<char>) -> bool {
    &&& inv.program@ == "git"@
    &&& strings_view(inv.args@) == seq!["remote"@, "get-url"@, remote]
    &&& inv.dir is None
}

/// `git status --porcelain`, always run for real in the current directory.
pub open spec fn status_invocation(inv: Invocation) -> bool {
    &&& inv.program@ == "git"@
    &&& strings_view(inv.args@) == seq!["status"@, "--porcelain"@]
    &&& inv.dir is None
}

/// Starts a repository in `dir`.
pub fn init(dir: &str, dry_run: bool) -> (r: Action)
    ensures
        action_matches(r, init_tokens(), Some(dir@), dry_run),
{
    let command = vec!["git", "init"];
    assert(crate::cmd::tokens_view(command@) =~= init_tokens());
    call_on_path(command, dir, dry_run)
}

/// Stages everything in `dir`.
pub fn add_all(dir: &str, dry_run: bool) -> (r: Action)
    ensures
        action_matches(r, add_all_tokens(), Some(dir@), dry_run),
{
    let command = vec!["git", "add", "."];
    assert(crate::cmd::tokens_view(command@) =~= add_all_tokens());
    call_on_path(command, dir, dry_run)
}

/// Commits all staged changes in `dir` with `msg`, signed if `sign`.
pub fn commit_all(dir: &str, msg: &str, sign: bool, dry_run: bool) -> (r: Action)
    ensures
        action_matches(r, commit_tokens(msg@, sign), Some(dir@), dry_run),
{
    let command = if sign {
        vec!["git", "commit", "-S", "-am", msg]
    } else {
        vec!["git", "commit", "-am", msg]
    };
    assert(crate::cmd::tokens_view(command@) =~= commit_tokens(msg@, sign));
    call_on_path(command, dir, dry_run)
}

/// Force-pushes from `dir` to `remote` with the ref mapping `refspec`.
pub fn force_push(dir: &str, remote: &str, refspec: &str, dry_run: bool) -> (r: Action)
    ensures
        action_matches(r, force_push_tokens(remote@, refspec@), Some(dir@), dry_run),
{
    let command = vec!["git", "push", "-f", remote, refspec];
    assert(crate::cmd::tokens_view(command@) =~= force_push_tokens(remote@, refspec@));
    call_on_path(command, dir, dry_run)
}

/// The query for the URL of `remote`; its output is read with
/// `url_from_output`.
pub fn remote_get_url(remote: &str) -> (r: Invocation)
    ensures
        remote_url_invocation(r, remote@),
{
    let args = vec![String::from_str("remote"), String::from_str("get-url"), remote.to_owned()];
    let r = Invocation { program: String::from_str("git"), args, dir: None };
    assert(strings_view(r.args@) =~= seq!["remote"@, "get-url"@, remote@]);
    r
}

/// The query whose empty output means a clean working tree.
pub fn status() -> (r: Invocation)
    ensures
        status_invocation(r),
{
    let args = vec![String::from_str("status"), String::from_str("--porcelain")];
    let r = Invocation { program: String::from_str("git"), args, dir: None };
    assert(strings_view(r.args@) =~= seq!["status"@, "--porcelain"@]);
    r
}

/// Whether the status query's output shows a clean tree.
pub fn is_clean(output: &Vec<u8>) -> (r: bool)
    ensures
        r == (output@.len() == 0),
{
    output.len() == 0
}

/// Relies on `String::from_utf8`: it succeeds exactly on valid UTF-8 and
/// then holds the decoded characters.
#[verifier::external_body]
fn decode_bytes(bytes: Vec<u8>) -> (r: Option<String>)
    ensures
        r is Some <==> valid_utf8(bytes@),
        r matches Some(s) ==> s@ == decode_utf8(bytes@),
{
    String::from_utf8(bytes).ok()
}

/// The remote URL as text, from the captured output of `remote_get_url`.
pub fn url_from_output(output: Vec<u8>) -> (r: Result<String, FatalError>)
    ensures
        valid_utf8(output@) ==> (r matches Ok(s) && s@ == decode_utf8(output@)),
        !valid_utf8(output@) ==> r == Err::<String, FatalError>(FatalError::FromUtf8Error),
{
    match decode_bytes(output) {
        Some(s) => Ok(s),
        None => Err(FatalError::FromUtf8Error),
    }
}

} // verus!
