//! The setup sequences of the helper's programs: which external programs run, in
//! which order, and how the failure of each is reported.

use vstd::prelude::*;
use crate::command::{
    create_wg_command, move_wg_command, netns_lo_up_command, netns_wg_addr_command,
    netns_wg_up_command, spec_create_wg, spec_move_wg, spec_netns_lo_up, spec_netns_wg_addr,
    spec_netns_wg_up, spec_wg_conf_wg, wg_conf_wg_command,
};
use crate::decimal::{all_digits, digits_value, lemma_nat_decimal_reads_back, nat_decimal, u32_decimal};
use crate::sequence::Step;

verus! {

/// How a failure to create the interface `name` is reported.
pub open spec fn spec_create_failure(name: Seq<char>) -> Seq<char> {
    "Failed to create wireguard interface "@ + name + " (ip:"@
}

/// How a failure to apply the configuration file `conf` to `name` is reported.
pub open spec fn spec_wg_conf_failure(name: Seq<char>, conf: Seq<char>) -> Seq<char> {
    "Failed to configure wireguard interface "@ + name + " with wg and "@ + conf + " (wg:"@
}

/// How a failure to move `name` into the namespace of `pid` is reported by the
/// privileged service, which names the program that failed.
pub open spec fn spec_move_failure_ip(name: Seq<char>, pid: Seq<char>) -> Seq<char> {
    "Failed to move wireguard interface "@ + name + " to netns of pid: "@ + pid + ". (ip:"@
}

/// How a failure to move `name` into the namespace of `pid` is reported.
pub open spec fn spec_move_failure(name: Seq<char>, pid: Seq<char>) -> Seq<char> {
    "Failed to move wireguard interface "@ + name + " to netns of pid: "@ + pid + "."@
}

/// How a failure to give `name` the address `addr` is reported.
pub open spec fn spec_addr_failure(name: Seq<char>, addr: Seq<char>) -> Seq<char> {
    "Failed to set "@ + name + " addr to "@ + addr
}

/// How a failure to bring the loopback interface up is reported.
pub open spec fn spec_lo_up_failure() -> Seq<char> {
    "Failed to set lo up."@
}

/// How a failure to bring `name` up is reported.
pub open spec fn spec_wg_up_failure(name: Seq<char>) -> Seq<char> {
    "Failed to set "@ + name + " status to up"@
}

/// How the creation of the interface `name` is reported.
pub open spec fn spec_create_success(name: Seq<char>) -> Seq<char> {
    "Created wireguard interace "@ + name
}

/// How applying the configuration file `conf` to `name` is reported.
pub open spec fn spec_wg_conf_success(name: Seq<char>, conf: Seq<char>) -> Seq<char> {
    "Configured wireguard interface "@ + name + " with wg and "@ + conf + "."@
}

/// How moving `name` into the namespace of `pid` is reported.
pub open spec fn spec_move_success(name: Seq<char>, pid: Seq<char>) -> Seq<char> {
    "Moved wireguard interface "@ + name + " to netns of pid: "@ + pid + "."@
}

/// How giving `name` the address `addr` is reported.
pub open spec fn spec_addr_success(name: Seq<char>, addr: Seq<char>) -> Seq<char> {
    "Set "@ + name + " addr to "@ + addr
}

/// How bringing the loopback interface up is reported.
pub open spec fn spec_lo_up_success() -> Seq<char> {
    "Set lo status to up."@
}

/// How bringing `name` up is reported.
pub open spec fn spec_wg_up_success(name: Seq<char>) -> Seq<char> {
    "Set "@ + name + " status to up"@
}

/// The text `a`, then `b`, then `c`.
fn join3(a: &str, b: &str, c: &str) -> (t: String)
    ensures
        t@ == a@ + b@ + c@,
{
    let mut t = String::from_str(a);
    t.append(b);
    t.append(c);
    t
}

/// The text `a`, then `b`, `c`, `d` and `e`.
fn join5(a: &str, b: &str, c: &str, d: &str, e: &str) -> (t: String)
    ensures
        t@ == a@ + b@ + c@ + d@ + e@,
{
    let mut t = join3(a, b, c);
    t.append(d);
    t.append(e);
    t
}

/// The step that creates the interface `name`.
pub fn create_wg_step(name: &str) -> (s: Step)
    ensures
        s@ == (spec_create_wg(name@), spec_create_failure(name@), spec_create_success(name@)),
{
    Step {
        command: create_wg_command(name),
        failure: join3("Failed to create wireguard interface ", name, " (ip:"),
        success: String::from_str("Created wireguard interace ").concat(name),
    }
}

/// The step that applies the configuration file `conf` to the interface `name`.
pub fn wg_conf_step(name: &str, conf: &str) -> (s: Step)
    ensures
        s@ == (spec_wg_conf_wg(name@, conf@), spec_wg_conf_failure(name@, conf@), spec_wg_conf_success(name@, conf@)),
{
    Step {
        command: wg_conf_wg_command(name, conf),
        failure: join5("Failed to configure wireguard interface ", name, " with wg and ", conf, " (wg:"),
        success: join5("Configured wireguard interface ", name, " with wg and ", conf, "."),
    }
}

/// The step that moves the interface `name` into the namespace of process `pid`,
/// as the privileged service reports it.
pub fn move_wg_step_ip(name: &str, pid: &str) -> (s: Step)
    ensures
        s@ == (spec_move_wg(name@, pid@), spec_move_failure_ip(name@, pid@), spec_move_success(name@, pid@)),
{
    Step {
        command: move_wg_command(name, pid),
        failure: join5("Failed to move wireguard interface ", name, " to netns of pid: ", pid, ". (ip:"),
        success: join5("Moved wireguard interface ", name, " to netns of pid: ", pid, "."),
    }
}

/// The step that moves the interface `name` into the namespace of process `pid`.
pub fn move_wg_step(name: &str, pid: &str) -> (s: Step)
    ensures
        s@ == (spec_move_wg(name@, pid@), spec_move_failure(name@, pid@), spec_move_success(name@, pid@)),
{
    Step {
        command: move_wg_command(name, pid),
        failure: join5("Failed to move wireguard interface ", name, " to netns of pid: ", pid, "."),
        success: join5("Moved wireguard interface ", name, " to netns of pid: ", pid, "."),
    }
}

/// What the privileged service does for a request from process `pid`: create the
/// interface `wg_name`, configure it from `wg_conf`, move it to the requester.
pub fn priv_request_steps(wg_name: &str, wg_conf: &str, pid: &str) -> (steps: Vec<Step>)
    ensures
        steps@.map_values(|s: Step| s@) == seq![
            (spec_create_wg(wg_name@), spec_create_failure(wg_name@), spec_create_success(wg_name@)),
            (spec_wg_conf_wg(wg_name@, wg_conf@), spec_wg_conf_failure(wg_name@, wg_conf@),
             spec_wg_conf_success(wg_name@, wg_conf@)),
            (spec_move_wg(wg_name@, pid@), spec_move_failure_ip(wg_name@, pid@), spec_move_success(wg_name@, pid@)),
        ],
{
    let mut steps: Vec<Step> = Vec::new();
    steps.push(create_wg_step(wg_name));
    steps.push(wg_conf_step(wg_name, wg_conf));
    steps.push(move_wg_step_ip(wg_name, pid));
    assert(steps@.map_values(|s: Step| s@) =~= seq![
        (spec_create_wg(wg_name@), spec_create_failure(wg_name@), spec_create_success(wg_name@)),
        (spec_wg_conf_wg(wg_name@, wg_conf@), spec_wg_conf_failure(wg_name@, wg_conf@),
         spec_wg_conf_success(wg_name@, wg_conf@)),
        (spec_move_wg(wg_name@, pid@), spec_move_failure_ip(wg_name@, pid@), spec_move_success(wg_name@, pid@)),
    ]);
    steps
}

/// What the older privileged service does for a request from process `pid`:
/// create the interface `wg_name` and move it to the requester.
pub fn server_priv_request_steps(wg_name: &str, pid: &str) -> (steps: Vec<Step>)
    ensures
        steps@.map_values(|s: Step| s@) == seq![
            (spec_create_wg(wg_name@), spec_create_failure(wg_name@), spec_create_success(wg_name@)),
            (spec_move_wg(wg_name@, pid@), spec_move_failure(wg_name@, pid@), spec_move_success(wg_name@, pid@)),
        ],
{
    let mut steps: Vec<Step> = Vec::new();
    steps.push(create_wg_step(wg_name));
    steps.push(move_wg_step(wg_name, pid));
    assert(steps@.map_values(|s: Step| s@) =~= seq![
        (spec_create_wg(wg_name@), spec_create_failure(wg_name@), spec_create_success(wg_name@)),
        (spec_move_wg(wg_name@, pid@), spec_move_failure(wg_name@, pid@), spec_move_success(wg_name@, pid@)),
    ]);
    steps
}

/// What the thread left in the original namespace does once the main thread has
/// its own: move the interface `wg_name` into the namespace of process `pid`.
pub fn stay_behind_steps(wg_name: &str, pid: u32) -> (steps: Vec<Step>)
    ensures
        steps@.map_values(|s: Step| s@) == seq![
            (spec_move_wg(wg_name@, nat_decimal(pid as nat)),
             spec_move_failure(wg_name@, nat_decimal(pid as nat)),
             spec_move_success(wg_name@, nat_decimal(pid as nat))),
        ],
{
    let pid_text = u32_decimal(pid);
    let mut steps: Vec<Step> = Vec::new();
    steps.push(move_wg_step(wg_name, pid_text.as_str()));
    assert(steps@.map_values(|s: Step| s@) =~= seq![
        (spec_move_wg(wg_name@, nat_decimal(pid as nat)),
         spec_move_failure(wg_name@, nat_decimal(pid as nat)),
         spec_move_success(wg_name@, nat_decimal(pid as nat))),
    ]);
    steps
}

/// What a session does inside its namespace: give the interface `wg_name` the
/// address `addr`, bring the loopback interface up, bring `wg_name` up.
pub fn netns_conf_steps(wg_name: &str, addr: &str) -> (steps: Vec<Step>)
    ensures
        steps@.map_values(|s: Step| s@) == seq![
            (spec_netns_wg_addr(wg_name@, addr@), spec_addr_failure(wg_name@, addr@), spec_addr_success(wg_name@, addr@)),
            (spec_netns_lo_up(), spec_lo_up_failure(), spec_lo_up_success()),
            (spec_netns_wg_up(wg_name@), spec_wg_up_failure(wg_name@), spec_wg_up_success(wg_name@)),
        ],
{
    let mut steps: Vec<Step> = Vec::new();
    steps.push(Step {
        command: netns_wg_addr_command(wg_name, addr),
        failure: join3("Failed to set ", wg_name, " addr to ").concat(addr),
        success: join3("Set ", wg_name, " addr to ").concat(addr),
    });
    steps.push(Step {
        command: netns_lo_up_command(),
        failure: String::from_str("Failed to set lo up."),
        success: String::from_str("Set lo status to up."),
    });
    steps.push(Step {
        command: netns_wg_up_command(wg_name),
        failure: join3("Failed to set ", wg_name, " status to up"),
        success: join3("Set ", wg_name, " status to up"),
    });
    assert(steps@.map_values(|s: Step| s@) =~= seq![
        (spec_netns_wg_addr(wg_name@, addr@), spec_addr_failure(wg_name@, addr@), spec_addr_success(wg_name@, addr@)),
        (spec_netns_lo_up(), spec_lo_up_failure(), spec_lo_up_success()),
        (spec_netns_wg_up(wg_name@), spec_wg_up_failure(wg_name@), spec_wg_up_success(wg_name@)),
    ]);
    steps
}


/// The thread left behind moves the interface to the process it was given: the
/// last argument of its move command is a digit string that reads back as `pid`.
pub proof fn lemma_stay_behind_targets_pid(wg_name: Seq<char>, pid: u32)
    ensures
        ({
            let target = spec_move_wg(wg_name, nat_decimal(pid as nat)).1.last();
            &&& target.len() > 0
            &&& all_digits(target)
            &&& digits_value(target) == pid
        }),
{
    lemma_nat_decimal_reads_back(pid as nat);
    assert(spec_move_wg(wg_name, nat_decimal(pid as nat)).1.last() == nat_decimal(pid as nat));
}

} // verus!
