use refraction_rdp::command::{
    create_wg_command, moonlight_command, move_wg_command, netns_lo_up_command,
    netns_wg_addr_command, netns_wg_up_command, sunshine_command, wg_conf_wg_command, CommandLine,
};
use refraction_rdp::status::{exit_message, pulse_path_for_uid, succeeded};

fn argv(c: &CommandLine) -> Vec<String> {
    let mut v = vec![c.program.clone()];
    v.extend(c.args.iter().cloned());
    v
}

#[test]
fn interface_commands() {
    assert_eq!(argv(&create_wg_command("wg0")), ["ip", "link", "add", "dev", "wg0", "type", "wireguard"]);
    assert_eq!(argv(&move_wg_command("wg0", "3919")), ["ip", "link", "set", "dev", "wg0", "netns", "3919"]);
    assert_eq!(argv(&wg_conf_wg_command("wg0", "/etc/wg.conf")), ["wg", "setconf", "wg0", "/etc/wg.conf"]);
    assert_eq!(argv(&netns_wg_addr_command("wg0", "10.10.10.2/24")), ["ip", "addr", "add", "dev", "wg0", "10.10.10.2/24"]);
    assert_eq!(argv(&netns_lo_up_command()), ["ip", "link", "set", "dev", "lo", "up"]);
    assert_eq!(argv(&netns_wg_up_command("wg0")), ["ip", "link", "set", "dev", "wg0", "up"]);
    assert!(create_wg_command("wg0").envs.is_empty());
}

#[test]
fn streaming_programs_get_the_sound_server() {
    let s = sunshine_command("unix:/run/user/1000/pulse/native");
    assert_eq!(s.program, "sunshine");
    assert!(s.args.is_empty());
    assert_eq!(s.envs, vec![("PULSE_SERVER".to_string(), "unix:/run/user/1000/pulse/native".to_string())]);
    let m = moonlight_command("p");
    assert_eq!(m.program, "moonlight");
    assert_eq!(m.envs, vec![("PULSE_SERVER".to_string(), "p".to_string())]);
}

#[test]
fn exit_reports() {
    assert_eq!(exit_message("Failed to set lo up.", Some(2)), "Failed to set lo up. 2)");
    assert_eq!(exit_message("Failed (ip:", Some(-1)), "Failed (ip: -1)");
    assert_eq!(exit_message("Failed (ip:", None), "Failed (ip: No exit code, terminated by a signal?)");
}

#[test]
fn success_is_exit_code_zero() {
    assert!(succeeded(Some(0)));
    assert!(!succeeded(Some(1)));
    assert!(!succeeded(None));
}

#[test]
fn sound_server_path() {
    assert_eq!(pulse_path_for_uid(1000), "unix:/run/user/1000/pulse/native");
    assert_eq!(pulse_path_for_uid(0), "unix:/run/user/0/pulse/native");
}
