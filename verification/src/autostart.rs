//! Start at logon: the scheduled task (`schtasks`) that starts the program.
//!
//! An executable in a protected program directory runs its task at the highest
//! run level; one in a writable place is held to the limited level, since a
//! task stores the path and another process of the same account could replace
//! what lies there.
use vstd::prelude::*;
use crate::model::string_views;
use crate::text::concat;

verus! {

/// The name of the scheduled task.
pub const TASK_NAME: &'static str = "PaceDock";

/// The run level of the task for an executable that does (or does not) lie
/// in a protected program directory.
pub open spec fn spec_run_level(protected: bool) -> Seq<char> {
    if protected { "HIGHEST"@ } else { "LIMITED"@ }
}

/// The run level of the task (see [`spec_run_level`]).
pub fn run_level(protected: bool) -> (s: &'static str)
    ensures
        s@ == spec_run_level(protected),
{
    if protected {
        proof { reveal_strlit("HIGHEST"); }
        "HIGHEST"
    } else {
        proof { reveal_strlit("LIMITED"); }
        "LIMITED"
    }
}

/// The arguments that create (or replace) the logon task running `exe`,
/// quoted, at the run level of [`spec_run_level`].
pub open spec fn create_args(exe: Seq<char>, protected: bool) -> Seq<Seq<char>> {
    seq![
        "/Create"@,
        "/TN"@,
        "PaceDock"@,
        "/SC"@,
        "ONLOGON"@,
        "/RL"@,
        spec_run_level(protected),
        "/TR"@,
        "\""@ + exe + "\""@,
        "/F"@,
    ]
}

/// The `schtasks` arguments that create the logon task (see [`create_args`]).
pub fn create_task_args(exe: &str, protected: bool) -> (v: Vec<String>)
    ensures
        string_views(v@) == create_args(exe@, protected),
{
    let quoted_head = concat("\"", exe);
    let quoted = concat(quoted_head.as_str(), "\"");
    let mut v: Vec<String> = Vec::new();
    v.push("/Create".to_owned());
    v.push("/TN".to_owned());
    v.push(TASK_NAME.to_owned());
    v.push("/SC".to_owned());
    v.push("ONLOGON".to_owned());
    v.push("/RL".to_owned());
    v.push(run_level(protected).to_owned());
    v.push("/TR".to_owned());
    v.push(quoted);
    v.push("/F".to_owned());
    proof {
        reveal_strlit("PaceDock");
    }
    assert(string_views(v@) =~= create_args(exe@, protected));
    v
}

/// The `schtasks` arguments that delete the logon task.
pub fn delete_task_args() -> (v: Vec<String>)
    ensures
        string_views(v@) == seq!["/Delete"@, "/TN"@, "PaceDock"@, "/F"@],
{
    let mut v: Vec<String> = Vec::new();
    v.push("/Delete".to_owned());
    v.push("/TN".to_owned());
    v.push(TASK_NAME.to_owned());
    v.push("/F".to_owned());
    proof {
        reveal_strlit("PaceDock");
    }
    assert(string_views(v@) =~= seq!["/Delete"@, "/TN"@, "PaceDock"@, "/F"@]);
    v
}

/// The `schtasks` arguments that ask whether the logon task exists.
pub fn query_task_args() -> (v: Vec<String>)
    ensures
        string_views(v@) == seq!["/Query"@, "/TN"@, "PaceDock"@],
{
    let mut v: Vec<String> = Vec::new();
    v.push("/Query".to_owned());
    v.push("/TN".to_owned());
    v.push(TASK_NAME.to_owned());
    proof {
        reveal_strlit("PaceDock");
    }
    assert(string_views(v@) =~= seq!["/Query"@, "/TN"@, "PaceDock"@]);
    v
}

} // verus!
