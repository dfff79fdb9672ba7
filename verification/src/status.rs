//! How the outcome of an external program, and the sound server of a user, are
//! written down.

use vstd::prelude::*;
use crate::decimal::{all_digits, digits_value, int_decimal, lemma_nat_decimal_reads_back, nat_decimal, i32_decimal, u32_decimal};

verus! {

/// The report of a failed program: `msg`, then the exit code and a closing
/// parenthesis, or a note that no exit code exists (the program was killed by a signal).
pub open spec fn spec_exit_message(msg: Seq<char>, code: Option<i32>) -> Seq<char> {
    match code {
        Some(n) => msg + " "@ + int_decimal(n as int) + ")"@,
        None => msg + " No exit code, terminated by a signal?)"@,
    }
}

/// Whether an exit code reports success: the program exited, with status 0.
pub open spec fn spec_succeeded(code: Option<i32>) -> bool {
    code == Some(0i32)
}

/// The report of a program that failed with exit code `code` (`None`: killed by a signal).
pub fn exit_message(msg: &str, code: Option<i32>) -> (m: String)
    ensures
        m@ == spec_exit_message(msg@, code),
{
    let mut m = String::from_str(msg);
    match code {
        Some(n) => {
            m.append(" ");
            let digits = i32_decimal(n);
            m.append(digits.as_str());
            m.append(")");
        },
        None => {
            m.append(" No exit code, terminated by a signal?)");
        },
    }
    m
}

/// Whether a program that ended with exit code `code` succeeded.
pub fn succeeded(code: Option<i32>) -> (ok: bool)
    ensures
        ok == spec_succeeded(code),
{
    match code {
        Some(n) => n == 0,
        None => false,
    }
}

/// The address of the sound server of the user with id `uid`.
pub open spec fn spec_pulse_path(uid: nat) -> Seq<char> {
    "unix:/run/user/"@ + nat_decimal(uid) + "/pulse/native"@
}

/// The address of the sound server of the user with id `uid`, which the
/// streaming programs are pointed at.
pub fn pulse_path_for_uid(uid: u32) -> (p: String)
    ensures
        p@ == spec_pulse_path(uid as nat),
{
    let mut p = String::from_str("unix:/run/user/");
    let digits = u32_decimal(uid);
    p.append(digits.as_str());
    p.append("/pulse/native");
    p
}


/// The sound-server path names the user it was made for: it is
/// `unix:/run/user/`, then a digit string that reads back as `uid`, then
/// `/pulse/native`.
pub proof fn lemma_pulse_path_names_uid(uid: nat)
    ensures
        ({
            let p = spec_pulse_path(uid);
            &&& p.len() > 28
            &&& p.subrange(0, 15) == "unix:/run/user/"@
            &&& p.subrange(p.len() - 13, p.len() as int) == "/pulse/native"@
            &&& all_digits(p.subrange(15, p.len() - 13))
            &&& digits_value(p.subrange(15, p.len() - 13)) == uid
        }),
{
    reveal_strlit("unix:/run/user/");
    reveal_strlit("/pulse/native");
    lemma_nat_decimal_reads_back(uid);
    let p = spec_pulse_path(uid);
    let d = nat_decimal(uid);
    assert(p.subrange(0, 15) =~= "unix:/run/user/"@);
    assert(p.subrange(p.len() - 13, p.len() as int) =~= "/pulse/native"@);
    assert(p.subrange(15, p.len() - 13) =~= d);
}

/// Different users get different sound-server paths.
pub proof fn lemma_pulse_path_distinct(a: nat, b: nat)
    ensures
        a != b ==> spec_pulse_path(a) != spec_pulse_path(b),
{
    lemma_pulse_path_names_uid(a);
    lemma_pulse_path_names_uid(b);
}

} // verus!
