use ini::Ini;
use refraction_rdp::assign_some;
use refraction_rdp::config::PrivConfig;
use refraction_rdp::get_err;

#[test]
fn defaults() {
    let c = PrivConfig::defaults();
    assert_eq!(c.wg_name, "wg-refraction");
    assert_eq!(c.wg_conf, "/etc/refraction-rdp/wg-refraction.conf");
    assert_eq!(c.sock_path, "/tmp/refraction-rdp.sock");
}

#[test]
fn section_overrides_given_keys() {
    let conf = Ini::load_from_str("[Refraction]\nwg_name = wg9\nsocket_path=/run/r.sock\n").unwrap();
    let mut c = PrivConfig::defaults();
    c.apply_ini(&conf);
    assert_eq!(c.wg_name, "wg9");
    assert_eq!(c.sock_path, "/run/r.sock");
    assert_eq!(c.wg_conf, "/etc/refraction-rdp/wg-refraction.conf");
}

#[test]
fn other_sections_are_ignored() {
    let conf = Ini::load_from_str("wg_name = general\n[Other]\nwg_name = other\n").unwrap();
    let mut c = PrivConfig::defaults();
    c.apply_ini(&conf);
    assert_eq!(c.wg_name, "wg-refraction");
}

#[test]
fn section_names_are_case_sensitive() {
    let conf = Ini::load_from_str("[refraction]\nwg_name = lower\n").unwrap();
    let mut c = PrivConfig::defaults();
    c.apply_ini(&conf);
    assert_eq!(c.wg_name, "wg-refraction");
}

#[test]
fn first_value_of_a_key_wins() {
    let mut conf = Ini::new();
    conf.with_section(Some("Refraction"))
        .add("wireguard_conf", "/first.conf")
        .add("wireguard_conf", "/second.conf");
    let mut c = PrivConfig::defaults();
    c.apply_ini(&conf);
    assert_eq!(c.wg_conf, "/first.conf");
}

#[test]
fn assign_some_keeps_value_when_key_is_absent() {
    let conf = Ini::load_from_str("[Refraction]\nwg_name = wg1\n").unwrap();
    let section = conf.section(Some("Refraction")).unwrap();
    let mut target = "keep".to_string();
    assign_some(section, "socket_path", &mut target);
    assert_eq!(target, "keep");
    assign_some(section, "wg_name", &mut target);
    assert_eq!(target, "wg1");
}

#[test]
fn error_code_is_available() {
    let _code: i32 = get_err();
}
