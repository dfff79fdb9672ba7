use refraction_rdp::request::{done_reply, is_done_reply, parse_request, request_line, RequestKind};

#[test]
fn request_line_is_pid_kind_newline() {
    assert_eq!(request_line(3919, 's'), "3919s\n");
    assert_eq!(request_line(1, 'c'), "1c\n");
}

#[test]
fn service_reads_server_request() {
    let q = parse_request("3919s\n").unwrap();
    assert_eq!(q.pid, "3919");
    assert_eq!(q.req_type, 's');
    assert_eq!(q.kind(), RequestKind::Server);
}

#[test]
fn service_reads_client_request() {
    let q = parse_request("42c\n").unwrap();
    assert_eq!(q.pid, "42");
    assert_eq!(q.kind(), RequestKind::Client);
    let other = parse_request("42x\n").unwrap();
    assert_eq!(other.kind(), RequestKind::Client);
}

#[test]
fn short_lines_are_invalid() {
    assert!(parse_request("").is_none());
    assert!(parse_request("\n").is_none());
    let q = parse_request("s\n").unwrap();
    assert_eq!(q.pid, "");
    assert_eq!(q.req_type, 's');
}

#[test]
fn line_without_newline_loses_its_last_character() {
    let q = parse_request("123s").unwrap();
    assert_eq!(q.pid, "12");
    assert_eq!(q.req_type, '3');
}

#[test]
fn request_round_trip() {
    for pid in [1u32, 77, 3919, 65536, u32::MAX] {
        for t in ['s', 'c'] {
            let q = parse_request(&request_line(pid, t)).unwrap();
            assert_eq!(q.pid, pid.to_string());
            assert_eq!(q.req_type, t);
        }
    }
}

#[test]
fn done_reply_is_accepted() {
    assert_eq!(done_reply(), "Done");
    assert!(is_done_reply(done_reply()));
    assert!(!is_done_reply("Done\n"));
    assert!(!is_done_reply("done"));
    assert!(!is_done_reply(""));
    assert!(!is_done_reply("Don"));
}
