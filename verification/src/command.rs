//! Reading what an external command produced: normalizing a failure to its
//! trimmed stderr text, decoding stdout, and building argument vectors.

use vstd::prelude::*;
use crate::data::{CommandResult, CommandResultView};
use crate::text::{trim_ascii, trim_ws};
use vstd::string::StringExecFns;
use vstd::utf8::{decode_utf8, valid_utf8};

verus! {

/// Relies on String::from_utf8: it succeeds exactly on valid UTF-8 and
/// decodes it.
#[verifier::external_body]
pub fn string_from_utf8(v: Vec<u8>) -> (r: Option<String>)
    ensures
        r is Some <==> valid_utf8(v@),
        r matches Some(s) ==> s@ == decode_utf8(v@),
{
    String::from_utf8(v).ok()
}

/// The text a failed command is reported with: its trimmed stderr, or a
/// fixed fallback when that is not decodable text.
pub open spec fn spec_command_error_text(r: CommandResultView) -> Seq<char> {
    if valid_utf8(trim_ws(r.stderr)) {
        decode_utf8(trim_ws(r.stderr))
    } else {
        "Unknown error"@
    }
}

/// Normalize a failed command to its reportable error text.
pub fn command_error_text(r: &CommandResult) -> (t: String)
    ensures
        t@ == spec_command_error_text(r@),
{
    let trimmed = trim_ascii(&r.stderr);
    match string_from_utf8(trimmed) {
        Some(s) => s,
        None => String::from_str("Unknown error"),
    }
}

/// The trimmed stdout of a command, as text, when it is decodable.
pub open spec fn spec_stdout_text(r: CommandResultView) -> Option<Seq<char>> {
    if valid_utf8(trim_ws(r.stdout)) {
        Some(decode_utf8(trim_ws(r.stdout)))
    } else {
        None
    }
}

/// Decode the trimmed stdout of a command.
pub fn stdout_text(r: &CommandResult) -> (t: Option<String>)
    ensures
        t.deep_view() == spec_stdout_text(r@),
{
    let trimmed = trim_ascii(&r.stdout);
    string_from_utf8(trimmed)
}

/// Whether a command's stdout is empty up to whitespace.
pub open spec fn spec_stdout_clean(r: CommandResultView) -> bool {
    trim_ws(r.stdout).len() == 0
}

/// Test whether a command's stdout is empty up to whitespace.
pub fn stdout_is_clean(r: &CommandResult) -> (b: bool)
    ensures
        b == spec_stdout_clean(r@),
{
    let trimmed = trim_ascii(&r.stdout);
    trimmed.len() == 0
}

/// Whether a command event is a command that ran and exited successfully.
pub open spec fn spec_command_ok(r: Result<CommandResultView, Seq<char>>) -> bool {
    r matches Ok(c) && c.exit_success
}

/// The reportable text of a failed command event: the launch-failure text,
/// or the normalized stderr of a command that exited unsuccessfully.
pub open spec fn spec_git_failure_text(r: Result<CommandResultView, Seq<char>>) -> Seq<char> {
    match r {
        Ok(c) => spec_command_error_text(c),
        Err(m) => m,
    }
}

/// Build a one-argument vector.
pub fn args1(a: &str) -> (r: Vec<String>)
    ensures
        r.deep_view() == seq![a@],
{
    let mut v: Vec<String> = Vec::new();
    v.push(a.to_owned());
    proof {
        assert(v.deep_view() =~~= seq![a@]);
    }
    v
}

/// Build a two-argument vector.
pub fn args2(a: &str, b: &str) -> (r: Vec<String>)
    ensures
        r.deep_view() == seq![a@, b@],
{
    let mut v: Vec<String> = Vec::new();
    v.push(a.to_owned());
    v.push(b.to_owned());
    proof {
        assert(v.deep_view() =~~= seq![a@, b@]);
    }
    v
}

/// Build a three-argument vector.
pub fn args3(a: &str, b: &str, c: &str) -> (r: Vec<String>)
    ensures
        r.deep_view() == seq![a@, b@, c@],
{
    let mut v: Vec<String> = Vec::new();
    v.push(a.to_owned());
    v.push(b.to_owned());
    v.push(c.to_owned());
    proof {
        assert(v.deep_view() =~~= seq![a@, b@, c@]);
    }
    v
}

/// Build a four-argument vector.
pub fn args4(a: &str, b: &str, c: &str, d: &str) -> (r: Vec<String>)
    ensures
        r.deep_view() == seq![a@, b@, c@, d@],
{
    let mut v: Vec<String> = Vec::new();
    v.push(a.to_owned());
    v.push(b.to_owned());
    v.push(c.to_owned());
    v.push(d.to_owned());
    proof {
        assert(v.deep_view() =~~= seq![a@, b@, c@, d@]);
    }
    v
}

} // verus!
