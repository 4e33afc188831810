use devimint::envfile::{
    append_invite_line, render_env, render_line, should_append_invite, EnvVar,
};

fn var(key: &[u8], value: &[u8]) -> EnvVar {
    EnvVar { key: key.to_vec(), value: value.to_vec() }
}

#[test]
fn render_one_line() {
    let out = render_line(&b"FM_FED_SIZE".to_vec(), &b"4".to_vec());
    assert_eq!(out, b"export FM_FED_SIZE=\"4\"\n".to_vec());
}

#[test]
fn round_trip_preserves_pairs_and_order() {
    // The written file carries exactly the pairs given, in the order given;
    // reading the env artifact back reproduces these very lines.
    let vars = vec![
        var(b"FM_TEST_DIR", b"/tmp/devimint-1-042"),
        var(b"FM_FED_SIZE", b"4"),
        var(b"FM_OFFLINE_NODES", b"0"),
    ];
    let out = render_env(&vars);
    let expected = b"export FM_TEST_DIR=\"/tmp/devimint-1-042\"\n\
                     export FM_FED_SIZE=\"4\"\n\
                     export FM_OFFLINE_NODES=\"0\"\n"
        .to_vec();
    assert_eq!(out, expected);
}

#[test]
fn render_nothing_is_empty() {
    let vars: Vec<EnvVar> = Vec::new();
    assert_eq!(render_env(&vars), Vec::<u8>::new());
}

#[test]
fn invite_line_is_appended_verbatim() {
    let env = b"export FM_TEST_DIR=\"/tmp/x\"\n".to_vec();
    let out = append_invite_line(&env, &b"fed11abc".to_vec());
    assert_eq!(
        out,
        b"export FM_TEST_DIR=\"/tmp/x\"\nexport FM_INVITE_CODE=\"fed11abc\"\n".to_vec()
    );
}

#[test]
fn invite_is_appended_only_when_both_files_exist() {
    assert!(should_append_invite(true, true));
    assert!(!should_append_invite(true, false));
    assert!(!should_append_invite(false, true));
    assert!(!should_append_invite(false, false));
}
