use devimint::cli::{
    file_poll_outcome, join_args, link_action, random_test_dir_suffix, user_command_verdict,
    CommonArgs, LinkAction, RpcCmd, POLL_INTERVAL_MS, WAIT_TIMEOUT_MS,
};
use devimint::envfile::{append_invite_line, should_append_invite};
use devimint::flow::ready_file_contents;
use devimint::poll::{run_poll, PollOutcome, RunEnd};

fn args_with(test_dir: Option<Vec<u8>>, suffix: &[u8]) -> CommonArgs {
    CommonArgs {
        test_dir,
        fed_size: 4,
        link_test_dir: None,
        link_test_dir_suffix: suffix.to_vec(),
        offline_nodes: 0,
    }
}

#[test]
fn explicit_test_dir_wins() {
    let a = args_with(Some(b"/work/dir".to_vec()), b"042");
    assert_eq!(a.test_dir(&b"/tmp".to_vec(), 77), b"/work/dir".to_vec());
}

#[test]
fn derived_test_dir_names_pid_and_suffix() {
    let a = args_with(None, b"042");
    assert_eq!(a.test_dir(&b"/tmp".to_vec(), 1234), b"/tmp/devimint-1234-042".to_vec());
}

#[test]
fn link_is_created_replaced_or_kept() {
    let here = b"/tmp/devimint-1-042".to_vec();
    let elsewhere = b"/tmp/devimint-9-999".to_vec();
    assert!(matches!(link_action(None, &here), LinkAction::CreateLink));
    assert!(matches!(link_action(Some(&elsewhere), &here), LinkAction::ReplaceLink));
    assert!(matches!(link_action(Some(&here), &here), LinkAction::KeepLink));
}

#[test]
fn user_command_words_join_with_spaces() {
    let cmd = vec![b"fedimint-cli".to_vec(), b"info".to_vec(), b"--json".to_vec()];
    assert_eq!(join_args(&cmd), b"fedimint-cli info --json".to_vec());
    assert_eq!(join_args(&vec![b"true".to_vec()]), b"true".to_vec());
    assert_eq!(join_args(&Vec::new()), Vec::<u8>::new());
}

#[test]
fn failed_user_command_is_reported_by_name() {
    let cmd = vec![b"false".to_vec()];
    assert!(user_command_verdict(true, &cmd).is_ok());
    match user_command_verdict(false, &cmd) {
        Err(e) => assert_eq!(e.command, b"false".to_vec()),
        Ok(()) => panic!("a failing command must be an error"),
    }
}

#[test]
fn a_file_check_maps_to_a_poll_outcome() {
    assert!(matches!(
        file_poll_outcome(Ok(true), b"ready file not found".to_vec()),
        PollOutcome::Ready(())
    ));
    match file_poll_outcome(Ok(false), b"ready file not found".to_vec()) {
        PollOutcome::Retry(r) => assert_eq!(r, b"ready file not found".to_vec()),
        _ => panic!("a missing file keeps the poll going"),
    }
    match file_poll_outcome(Err(b"permission denied".to_vec()), b"unused".to_vec()) {
        PollOutcome::Retry(r) => assert_eq!(r, b"permission denied".to_vec()),
        _ => panic!("a failing check keeps the poll going"),
    }
}

#[test]
fn wait_sees_the_ready_file_appear_and_extends_the_env() {
    // The ready-file is absent at first; the `wait` operation polls under its
    // 60 s budget; the file appears with `READY` at t = 2 s; the invite code
    // exists, so an FM_INVITE_CODE export line is appended to the env-file.
    let description = b"ready file".to_vec();
    let evaluations_before_ready = (2_000 / POLL_INTERVAL_MS) as usize;
    let mut script: Vec<PollOutcome<()>> = Vec::new();
    for _ in 0..evaluations_before_ready {
        script.push(file_poll_outcome(Ok(false), b"ready file not found".to_vec()));
    }
    script.push(file_poll_outcome(Ok(true), b"ready file not found".to_vec()));
    let (end, sleeps) = run_poll(&description, &mut script, POLL_INTERVAL_MS, Some(WAIT_TIMEOUT_MS));
    assert!(matches!(end, RunEnd::Finished(Ok(()))));
    assert_eq!(sleeps, evaluations_before_ready);
    // What the command prints is the file's sentinel.
    assert_eq!(ready_file_contents(true), b"READY".to_vec());
    // Both the env-file and the invite-code file exist: append the line.
    assert!(should_append_invite(true, true));
    let env = b"export FM_TEST_DIR=\"/tmp/d\"\n".to_vec();
    let extended = append_invite_line(&env, &b"fed11qqs".to_vec());
    assert_eq!(
        extended,
        b"export FM_TEST_DIR=\"/tmp/d\"\nexport FM_INVITE_CODE=\"fed11qqs\"\n".to_vec()
    );
}

#[test]
fn rpc_commands_are_the_two_artifact_operations() {
    assert!(matches!(RpcCmd::Wait, RpcCmd::Wait));
    assert!(matches!(RpcCmd::Env, RpcCmd::Env));
}

#[test]
fn the_random_suffix_is_three_ascii_digits() {
    for _ in 0..50 {
        let s = random_test_dir_suffix();
        assert_eq!(s.len(), 3);
        for b in s {
            assert!(b.is_ascii_digit());
        }
    }
}
