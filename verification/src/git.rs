//! The `git` invocations the tool makes, as argument lists.

use crate::text::owned;
use vstd::prelude::*;
use vstd::string::*;

verus! {

/// The program that is run.
pub const GIT: &'static str = "git";

/// `git status`: succeeds inside a repository.
pub fn status() -> (r: Vec<String>)
    ensures
        r.deep_view() == seq!["status"@],
{
    let mut args: Vec<String> = Vec::new();
    args.push(owned("status"));
    assert(args.deep_view() =~= seq!["status"@]);
    args
}

/// `git diff --staged`: prints the staged changes.
pub fn staged_diff() -> (r: Vec<String>)
    ensures
        r.deep_view() == seq!["diff"@, "--staged"@],
{
    let mut args: Vec<String> = Vec::new();
    args.push(owned("diff"));
    args.push(owned("--staged"));
    assert(args.deep_view() =~= seq!["diff"@, "--staged"@]);
    args
}

/// `git add .`: stages every change below the working directory.
pub fn add_all() -> (r: Vec<String>)
    ensures
        r.deep_view() == seq!["add"@, "."@],
{
    let mut args: Vec<String> = Vec::new();
    args.push(owned("add"));
    args.push(owned("."));
    assert(args.deep_view() =~= seq!["add"@, "."@]);
    args
}

/// `git commit -m <message>`: the message is one argument, whatever it holds.
pub fn commit(message: &str) -> (r: Vec<String>)
    ensures
        r.deep_view() == seq!["commit"@, "-m"@, message@],
{
    let mut args: Vec<String> = Vec::new();
    args.push(owned("commit"));
    args.push(owned("-m"));
    args.push(owned(message));
    assert(args.deep_view() =~= seq!["commit"@, "-m"@, message@]);
    args
}

/// `git push`.
pub fn push() -> (r: Vec<String>)
    ensures
        r.deep_view() == seq!["push"@],
{
    let mut args: Vec<String> = Vec::new();
    args.push(owned("push"));
    assert(args.deep_view() =~= seq!["push"@]);
    args
}

} // verus!
