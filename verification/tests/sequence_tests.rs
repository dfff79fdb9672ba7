use refraction_rdp::plans::{netns_conf_steps, priv_request_steps, server_priv_request_steps, stay_behind_steps};
use refraction_rdp::sequence::{Outcome, Sequence};

fn program_args(seq: &Sequence) -> Option<Vec<String>> {
    seq.next_step().map(|st| st.command.args.clone())
}

#[test]
fn all_steps_succeed() {
    let mut s = Sequence::new(priv_request_steps("wg-refraction", "/etc/x.conf", "3919"));
    let mut run = Vec::new();
    let mut reports = Vec::new();
    while let Some(st) = s.next_step() {
        run.push(st.command.program.clone());
        reports.push(st.success.clone());
        s.record(Some(0));
    }
    assert_eq!(run, ["ip", "wg", "ip"]);
    assert_eq!(
        reports,
        [
            "Created wireguard interace wg-refraction",
            "Configured wireguard interface wg-refraction with wg and /etc/x.conf.",
            "Moved wireguard interface wg-refraction to netns of pid: 3919.",
        ]
    );
    assert!(matches!(s.outcome(), Outcome::Finished));
}

#[test]
fn first_failure_stops_the_sequence() {
    let mut s = Sequence::new(priv_request_steps("wg-refraction", "/etc/x.conf", "3919"));
    assert!(matches!(s.outcome(), Outcome::Pending));
    s.record(Some(0));
    assert_eq!(program_args(&s).unwrap(), ["setconf", "wg-refraction", "/etc/x.conf"]);
    s.record(Some(1));
    assert!(s.next_step().is_none());
    match s.outcome() {
        Outcome::Failed(m) => assert_eq!(
            m,
            "Failed to configure wireguard interface wg-refraction with wg and /etc/x.conf (wg: 1)"
        ),
        _ => panic!("sequence should have failed"),
    }
    s.record(Some(0));
    assert!(s.next_step().is_none());
}

#[test]
fn killed_program_is_reported() {
    let mut s = Sequence::new(priv_request_steps("wg0", "c", "7"));
    s.record(None);
    match s.outcome() {
        Outcome::Failed(m) => assert_eq!(m, "Failed to create wireguard interface wg0 (ip: No exit code, terminated by a signal?)"),
        _ => panic!("sequence should have failed"),
    }
}

#[test]
fn move_failure_in_service_names_ip() {
    let mut s = Sequence::new(priv_request_steps("wg0", "c", "7"));
    s.record(Some(0));
    s.record(Some(0));
    s.record(Some(2));
    match s.outcome() {
        Outcome::Failed(m) => assert_eq!(m, "Failed to move wireguard interface wg0 to netns of pid: 7. (ip: 2)"),
        _ => panic!("sequence should have failed"),
    }
}

#[test]
fn stay_behind_moves_to_pid() {
    let mut s = Sequence::new(stay_behind_steps("test", 3919));
    assert_eq!(program_args(&s).unwrap(), ["link", "set", "dev", "test", "netns", "3919"]);
    s.record(Some(1));
    match s.outcome() {
        Outcome::Failed(m) => assert_eq!(m, "Failed to move wireguard interface test to netns of pid: 3919. 1)"),
        _ => panic!("sequence should have failed"),
    }
}

#[test]
fn older_service_creates_and_moves() {
    let mut s = Sequence::new(server_priv_request_steps("wg-refraction", "3919\n"));
    assert_eq!(program_args(&s).unwrap(), ["link", "add", "dev", "wg-refraction", "type", "wireguard"]);
    s.record(Some(0));
    assert_eq!(program_args(&s).unwrap(), ["link", "set", "dev", "wg-refraction", "netns", "3919\n"]);
    s.record(Some(0));
    assert!(matches!(s.outcome(), Outcome::Finished));
}

#[test]
fn namespace_configuration_order() {
    let mut s = Sequence::new(netns_conf_steps("wg-refraction", "10.10.10.2/24"));
    assert_eq!(program_args(&s).unwrap(), ["addr", "add", "dev", "wg-refraction", "10.10.10.2/24"]);
    assert_eq!(s.next_step().unwrap().success, "Set wg-refraction addr to 10.10.10.2/24");
    s.record(Some(0));
    assert_eq!(s.next_step().unwrap().success, "Set lo status to up.");
    assert_eq!(program_args(&s).unwrap(), ["link", "set", "dev", "lo", "up"]);
    s.record(Some(0));
    assert_eq!(program_args(&s).unwrap(), ["link", "set", "dev", "wg-refraction", "up"]);
    s.record(Some(4));
    match s.outcome() {
        Outcome::Failed(m) => assert_eq!(m, "Failed to set wg-refraction status to up 4)"),
        _ => panic!("sequence should have failed"),
    }
}

#[test]
fn empty_sequence_is_finished() {
    let s = Sequence::new(Vec::new());
    assert!(s.next_step().is_none());
    assert!(matches!(s.outcome(), Outcome::Finished));
}
