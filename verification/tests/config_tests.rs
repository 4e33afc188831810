use devimint::config::{
    config_vars, fedimintd_ports, fedimintd_vars, local_addr, path_join, u64_to_decimal,
    GlobalConfig,
};
use devimint::envfile::render_env;

#[test]
fn decimal_renders_exactly() {
    assert_eq!(u64_to_decimal(0), b"0".to_vec());
    assert_eq!(u64_to_decimal(7), b"7".to_vec());
    assert_eq!(u64_to_decimal(105), b"105".to_vec());
    assert_eq!(u64_to_decimal(60_000), b"60000".to_vec());
    assert_eq!(
        u64_to_decimal(u64::MAX),
        b"18446744073709551615".to_vec()
    );
}

#[test]
fn paths_join_with_one_separator() {
    assert_eq!(path_join(&b"/tmp/x".to_vec(), &b"ready".to_vec()), b"/tmp/x/ready".to_vec());
}

#[test]
fn the_layout_hangs_off_the_test_dir() {
    let c = GlobalConfig::new(b"/tmp/devimint-1-042".to_vec(), 4, 1);
    assert_eq!(c.fed_size, 4);
    assert_eq!(c.offline_nodes, 1);
    assert_eq!(c.logs_dir, b"/tmp/devimint-1-042/logs".to_vec());
    assert_eq!(c.ready_file, b"/tmp/devimint-1-042/ready".to_vec());
    assert_eq!(c.env_file, b"/tmp/devimint-1-042/env".to_vec());
    assert_eq!(c.cfg_dir, b"/tmp/devimint-1-042/cfg".to_vec());
    assert_eq!(c.invite_code_file, b"/tmp/devimint-1-042/cfg/invite-code".to_vec());
}

#[test]
fn ports_are_derived_per_peer() {
    let p0 = fedimintd_ports(0);
    assert_eq!(p0.peer_port, 18137);
    assert_eq!(p0.api_port, 18138);
    assert_eq!(p0.metrics_port, 3510);
    let p3 = fedimintd_ports(3);
    assert_eq!(p3.peer_port, 18143);
    assert_eq!(p3.api_port, 18144);
    assert_eq!(p3.metrics_port, 3513);
}

#[test]
fn local_addresses_name_the_loopback() {
    assert_eq!(local_addr(18138), b"127.0.0.1:18138".to_vec());
}

#[test]
fn each_server_gets_its_own_addresses_and_directory() {
    let v = fedimintd_vars(3, &b"/tmp/d".to_vec());
    assert_eq!(v.bind_p2p, b"127.0.0.1:18143".to_vec());
    assert_eq!(v.p2p_url, b"fedimint://127.0.0.1:18143".to_vec());
    assert_eq!(v.bind_api, b"127.0.0.1:18144".to_vec());
    assert_eq!(v.api_url, b"ws://127.0.0.1:18144".to_vec());
    assert_eq!(v.bind_metrics, b"127.0.0.1:3513".to_vec());
    assert_eq!(v.data_dir, b"/tmp/d/fedimintd-3".to_vec());
}

#[test]
fn the_config_exports_its_layout() {
    let c = GlobalConfig::new(b"/tmp/d".to_vec(), 4, 0);
    let vars = config_vars(&c);
    let out = render_env(&vars);
    let expected = b"export FM_TEST_DIR=\"/tmp/d\"\n\
                     export FM_LOGS_DIR=\"/tmp/d/logs\"\n\
                     export FM_READY_FILE=\"/tmp/d/ready\"\n\
                     export FM_FED_SIZE=\"4\"\n\
                     export FM_OFFLINE_NODES=\"0\"\n"
        .to_vec();
    assert_eq!(out, expected);
}
