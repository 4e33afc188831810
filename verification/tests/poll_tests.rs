use devimint::poll::{run_poll, poll_step, PollError, PollOutcome, PollStep, RunEnd};

#[test]
fn first_success_returns_without_sleeping() {
    let description = b"ready file".to_vec();
    let mut script: Vec<PollOutcome<u64>> = vec![PollOutcome::Ready(42)];
    let (end, sleeps) = run_poll(&description, &mut script, 50, Some(60_000));
    assert!(matches!(end, RunEnd::Finished(Ok(42))));
    assert_eq!(sleeps, 0);
}

#[test]
fn first_success_ignores_later_outcomes() {
    let description = b"api".to_vec();
    let mut script: Vec<PollOutcome<u64>> = vec![
        PollOutcome::Ready(7),
        PollOutcome::Fatal(b"unused".to_vec()),
    ];
    let (end, sleeps) = run_poll(&description, &mut script, 50, None);
    assert!(matches!(end, RunEnd::Finished(Ok(7))));
    assert_eq!(sleeps, 0);
}

#[test]
fn all_transient_failures_time_out_at_the_deadline() {
    let description = b"ready file".to_vec();
    let mut script: Vec<PollOutcome<u64>> = Vec::new();
    for _ in 0..10 {
        script.push(PollOutcome::Retry(b"not found".to_vec()));
    }
    // Evaluations happen at 0ms, 50ms, 100ms, ...; the 100ms one crosses the
    // 100ms deadline, after exactly two sleeps: never earlier, never forever.
    let (end, sleeps) = run_poll(&description, &mut script, 50, Some(100));
    match end {
        RunEnd::Finished(Err(PollError::Timeout { description: d, last_reason })) => {
            assert_eq!(d, b"ready file".to_vec());
            assert_eq!(last_reason, b"not found".to_vec());
        }
        _ => panic!("expected a timeout"),
    }
    assert_eq!(sleeps, 2);
}

#[test]
fn transient_failures_without_timeout_keep_polling() {
    let description = b"env file".to_vec();
    let mut script: Vec<PollOutcome<u64>> = vec![
        PollOutcome::Retry(b"not found".to_vec()),
        PollOutcome::Retry(b"not found".to_vec()),
    ];
    let (end, sleeps) = run_poll(&description, &mut script, 50, None);
    assert!(matches!(end, RunEnd::ScriptExhausted));
    assert_eq!(sleeps, 2);
}

#[test]
fn fatal_failure_aborts_immediately() {
    let description = b"daemon".to_vec();
    let mut script: Vec<PollOutcome<u64>> = vec![
        PollOutcome::Retry(b"starting".to_vec()),
        PollOutcome::Fatal(b"config rejected".to_vec()),
        PollOutcome::Ready(1),
    ];
    let (end, sleeps) = run_poll(&description, &mut script, 50, Some(60_000));
    match end {
        RunEnd::Finished(Err(PollError::Fatal(m))) => assert_eq!(m, b"config rejected".to_vec()),
        _ => panic!("expected a fatal error"),
    }
    assert_eq!(sleeps, 1);
}

#[test]
fn single_step_timeout_carries_description_and_reason() {
    let description = b"ready file".to_vec();
    let step = poll_step::<u64>(
        &description,
        PollOutcome::Retry(b"still absent".to_vec()),
        60_000,
        Some(60_000),
    );
    match step {
        PollStep::Done(Err(PollError::Timeout { description: d, last_reason })) => {
            assert_eq!(d, b"ready file".to_vec());
            assert_eq!(last_reason, b"still absent".to_vec());
        }
        _ => panic!("expected a timeout step"),
    }
}

#[test]
fn single_step_sleeps_before_the_deadline() {
    let description = b"ready file".to_vec();
    let step = poll_step::<u64>(
        &description,
        PollOutcome::Retry(b"still absent".to_vec()),
        59_999,
        Some(60_000),
    );
    assert!(matches!(step, PollStep::SleepThenRetry));
}
