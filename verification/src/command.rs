//! The external programs the helper runs, as plain values: a program name, its
//! arguments and the environment variables it is given.

use vstd::prelude::*;

verus! {

/// A program to run with its arguments and extra environment variables.
pub struct CommandLine {
    /// The program, looked up on the search path.
    pub program: String,
    /// The arguments, in order.
    pub args: Vec<String>,
    /// Environment variables set for the program, as (name, value).
    pub envs: Vec<(String, String)>,
}


/// The abstract form of a command: program, arguments, environment variables.
pub type CommandView = (Seq<char>, Seq<Seq<char>>, Seq<(Seq<char>, Seq<char>)>);

/// A command with arguments and no extra environment.
pub open spec fn spec_plain(program: Seq<char>, args: Seq<Seq<char>>) -> CommandView {
    (program, args, Seq::empty())
}

/// `ip link add dev <name> type wireguard`
pub open spec fn spec_create_wg(name: Seq<char>) -> CommandView {
    spec_plain("ip"@, seq!["link"@, "add"@, "dev"@, name, "type"@, "wireguard"@])
}

/// `ip link set dev <name> netns <pid>`
pub open spec fn spec_move_wg(name: Seq<char>, pid: Seq<char>) -> CommandView {
    spec_plain("ip"@, seq!["link"@, "set"@, "dev"@, name, "netns"@, pid])
}

/// `wg setconf <name> <wgconf>`
pub open spec fn spec_wg_conf_wg(name: Seq<char>, wgconf: Seq<char>) -> CommandView {
    spec_plain("wg"@, seq!["setconf"@, name, wgconf])
}

/// `ip addr add dev <name> <addr>`
pub open spec fn spec_netns_wg_addr(name: Seq<char>, addr: Seq<char>) -> CommandView {
    spec_plain("ip"@, seq!["addr"@, "add"@, "dev"@, name, addr])
}

/// `ip link set dev lo up`
pub open spec fn spec_netns_lo_up() -> CommandView {
    spec_plain("ip"@, seq!["link"@, "set"@, "dev"@, "lo"@, "up"@])
}

/// `ip link set dev <name> up`
pub open spec fn spec_netns_wg_up(name: Seq<char>) -> CommandView {
    spec_plain("ip"@, seq!["link"@, "set"@, "dev"@, name, "up"@])
}

/// `program` run with `PULSE_SERVER=<pulse_path>` and no arguments.
pub open spec fn spec_with_pulse_server(program: Seq<char>, pulse_path: Seq<char>) -> CommandView {
    (program, Seq::empty(), seq![("PULSE_SERVER"@, pulse_path)])
}

impl View for CommandLine {
    type V = CommandView;

    open spec fn view(&self) -> Self::V {
        (self.program@, self.args.deep_view(), self.envs.deep_view())
    }
}

/// A command that runs `program` with `args` and no extra environment.
fn plain_command(program: &str, args: Vec<String>) -> (c: CommandLine)
    ensures
        c@ == (program@, args.deep_view(), Seq::<(Seq<char>, Seq<char>)>::empty()),
{
    let envs: Vec<(String, String)> = Vec::new();
    let c = CommandLine { program: String::from_str(program), args, envs };
    assert(c.envs.deep_view() =~= Seq::<(Seq<char>, Seq<char>)>::empty());
    c
}

/// Owned copies of the given strings, in order.
fn strings(parts: &[&str]) -> (v: Vec<String>)
    ensures
        v.deep_view() == parts@.map_values(|p: &str| p@),
{
    let mut v: Vec<String> = Vec::new();
    let mut i: usize = 0;
    while i < parts.len()
        invariant
            i <= parts@.len(),
            v@.len() == i,
            v.deep_view() =~= parts@.subrange(0, i as int).map_values(|p: &str| p@),
        decreases parts@.len() - i,
    {
        let ghost prev = v@;
        let ghost prev_dv = v.deep_view();
        v.push(String::from_str(parts[i]));
        assert forall|j: int| 0 <= j < i + 1 implies #[trigger] v.deep_view()[j] == parts@[j]@ by {
            if j < i {
                assert(v@[j] == prev[j]);
                assert(prev_dv[j] == parts@.subrange(0, i as int).map_values(|p: &str| p@)[j]);
            }
        }
        i = i + 1;
        assert(v.deep_view() =~= parts@.subrange(0, i as int).map_values(|p: &str| p@));
    }
    assert(parts@.subrange(0, parts@.len() as int) =~= parts@);
    v
}

/// `ip link add dev <name> type wireguard`: creates the WireGuard interface `name`.
pub fn create_wg_command(name: &str) -> (c: CommandLine)
    ensures
        c@ == spec_create_wg(name@),
        c.program@ == "ip"@,
        c.args.deep_view().len() == 6,
        c.args.deep_view()[3] == name@,
        c.envs.deep_view().len() == 0,
{
    let parts = ["link", "add", "dev", name, "type", "wireguard"];
    let args = strings(&parts);
    assert(parts@.map_values(|p: &str| p@) =~= seq!["link"@, "add"@, "dev"@, name@, "type"@, "wireguard"@]);
    plain_command("ip", args)
}


/// `ip link set dev <name> netns <pid>`: moves the interface `name` into the
/// network namespace of process `pid`.
pub fn move_wg_command(name: &str, pid: &str) -> (c: CommandLine)
    ensures
        c@ == spec_move_wg(name@, pid@),
        c.program@ == "ip"@,
        c.args.deep_view().len() == 6,
        c.args.deep_view()[3] == name@,
        c.args.deep_view()[5] == pid@,
        c.envs.deep_view().len() == 0,
{
    let parts = ["link", "set", "dev", name, "netns", pid];
    let args = strings(&parts);
    assert(parts@.map_values(|p: &str| p@) =~= seq!["link"@, "set"@, "dev"@, name@, "netns"@, pid@]);
    plain_command("ip", args)
}

/// `wg setconf <name> <wgconf>`: applies the WireGuard configuration file `wgconf`
/// to the interface `name`.
pub fn wg_conf_wg_command(name: &str, wgconf: &str) -> (c: CommandLine)
    ensures
        c@ == spec_wg_conf_wg(name@, wgconf@),
{
    let parts = ["setconf", name, wgconf];
    let args = strings(&parts);
    assert(parts@.map_values(|p: &str| p@) =~= seq!["setconf"@, name@, wgconf@]);
    plain_command("wg", args)
}

/// `ip addr add dev <name> <addr>`: gives the interface `name` the address `addr`.
pub fn netns_wg_addr_command(name: &str, addr: &str) -> (c: CommandLine)
    ensures
        c@ == spec_netns_wg_addr(name@, addr@),
{
    let parts = ["addr", "add", "dev", name, addr];
    let args = strings(&parts);
    assert(parts@.map_values(|p: &str| p@) =~= seq!["addr"@, "add"@, "dev"@, name@, addr@]);
    plain_command("ip", args)
}

/// `ip link set dev lo up`: brings the loopback interface up.
pub fn netns_lo_up_command() -> (c: CommandLine)
    ensures
        c@ == spec_netns_lo_up(),
{
    let parts = ["link", "set", "dev", "lo", "up"];
    let args = strings(&parts);
    assert(parts@.map_values(|p: &str| p@) =~= seq!["link"@, "set"@, "dev"@, "lo"@, "up"@]);
    plain_command("ip", args)
}

/// `ip link set dev <name> up`: brings the interface `name` up.
pub fn netns_wg_up_command(name: &str) -> (c: CommandLine)
    ensures
        c@ == spec_netns_wg_up(name@),
{
    let parts = ["link", "set", "dev", name, "up"];
    let args = strings(&parts);
    assert(parts@.map_values(|p: &str| p@) =~= seq!["link"@, "set"@, "dev"@, name@, "up"@]);
    plain_command("ip", args)
}

/// `program` with no arguments and `PULSE_SERVER` set to `pulse_path`.
fn with_pulse_server(program: &str, pulse_path: &str) -> (c: CommandLine)
    ensures
        c@ == (program@, Seq::<Seq<char>>::empty(), seq![("PULSE_SERVER"@, pulse_path@)]),
{
    let args: Vec<String> = Vec::new();
    let mut envs: Vec<(String, String)> = Vec::new();
    envs.push((String::from_str("PULSE_SERVER"), String::from_str(pulse_path)));
    let c = CommandLine { program: String::from_str(program), args, envs };
    assert(c.args.deep_view() =~= Seq::<Seq<char>>::empty());
    assert(c.envs.deep_view() =~= seq![("PULSE_SERVER"@, pulse_path@)]);
    c
}

/// `sunshine`, the desktop streaming host, with its sound sent to `pulse_path`.
pub fn sunshine_command(pulse_path: &str) -> (c: CommandLine)
    ensures
        c@ == spec_with_pulse_server("sunshine"@, pulse_path@),
{
    with_pulse_server("sunshine", pulse_path)
}

/// `moonlight`, the desktop streaming client, with its sound sent to `pulse_path`.
pub fn moonlight_command(pulse_path: &str) -> (c: CommandLine)
    ensures
        c@ == spec_with_pulse_server("moonlight"@, pulse_path@),
{
    with_pulse_server("moonlight", pulse_path)
}


/// Creating an interface runs `ip link add dev <name> type wireguard` with the
/// name exactly as given, whatever it is: the fourth argument is `name` itself.
pub proof fn lemma_create_wg_passes_name(name: Seq<char>)
    ensures
        spec_create_wg(name).0 == "ip"@,
        spec_create_wg(name).1 == seq!["link"@, "add"@, "dev"@, name, "type"@, "wireguard"@],
        spec_create_wg(name).1.len() == 6,
        spec_create_wg(name).1[3] == name,
        spec_create_wg(name).2.len() == 0,
{
}

/// Two different names never give the same creation command.
pub proof fn lemma_create_wg_distinguishes_names(a: Seq<char>, b: Seq<char>)
    ensures
        spec_create_wg(a) == spec_create_wg(b) ==> a == b,
{
    lemma_create_wg_passes_name(a);
    lemma_create_wg_passes_name(b);
    if spec_create_wg(a) == spec_create_wg(b) {
        assert(spec_create_wg(a).1[3] == spec_create_wg(b).1[3]);
    }
}

/// Moving an interface runs `ip link set dev <name> netns <pid>` with the name and
/// the process id exactly as given: the fourth argument is `name`, the last is `pid`.
pub proof fn lemma_move_wg_passes_name_and_pid(name: Seq<char>, pid: Seq<char>)
    ensures
        spec_move_wg(name, pid).0 == "ip"@,
        spec_move_wg(name, pid).1 == seq!["link"@, "set"@, "dev"@, name, "netns"@, pid],
        spec_move_wg(name, pid).1.len() == 6,
        spec_move_wg(name, pid).1[3] == name,
        spec_move_wg(name, pid).1.last() == pid,
        spec_move_wg(name, pid).2.len() == 0,
{
}

/// Two different process ids never give the same move command.
pub proof fn lemma_move_wg_distinguishes_pids(name: Seq<char>, a: Seq<char>, b: Seq<char>)
    ensures
        spec_move_wg(name, a) == spec_move_wg(name, b) ==> a == b,
{
    lemma_move_wg_passes_name_and_pid(name, a);
    lemma_move_wg_passes_name_and_pid(name, b);
    if spec_move_wg(name, a) == spec_move_wg(name, b) {
        assert(spec_move_wg(name, a).1[5] == spec_move_wg(name, b).1[5]);
    }
}

} // verus!
