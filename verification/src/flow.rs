//! The coordinated setup flow: several independent sub-flows started
//! together, joined all-or-nothing, and the readiness verdict derived from
//! the join.
//!
//! The sub-flows themselves run outside the library (they drive external
//! daemons); what the join concludes from their observed statuses, and what
//! may run after it, are verified here.

use vstd::prelude::*;

verus! {

/// What the join observed of one sub-flow when it stopped looking.
pub enum FlowStatus {
    /// The sub-flow ran to completion successfully.
    Succeeded,
    /// The sub-flow failed with this error; the join aborts on it.
    Failed(Vec<u8>),
    /// The sub-flow was still in flight when the join aborted: it is
    /// abandoned, never awaited to completion.
    Abandoned,
}

/// Why the joined operation as a whole failed.
pub enum JoinError {
    /// The earliest sub-flow that failed, with its error.
    Failed { index: usize, error: Vec<u8> },
    /// No sub-flow failed, yet this one never completed.
    Incomplete { index: usize },
}

pub open spec fn all_succeeded(s: Seq<FlowStatus>) -> bool {
    forall|i: int| 0 <= i < s.len() ==> s[i] is Succeeded
}

pub open spec fn some_failed(s: Seq<FlowStatus>) -> bool {
    exists|i: int| 0 <= i < s.len() && s[i] is Failed
}

/// Joins the observed statuses of all sub-flows into the one result of the
/// whole operation: success exactly when every sub-flow succeeded; otherwise
/// the earliest failure, or the earliest abandoned sub-flow where nothing
/// failed at all.
pub fn join_flows(statuses: &Vec<FlowStatus>) -> (r: Result<(), JoinError>)
    ensures
        r is Ok <==> all_succeeded(statuses@),
        some_failed(statuses@) ==> (r matches Err(e) && e is Failed),
        (r matches Err(e) ==> match e {
            JoinError::Failed { index, error } =>
                index < statuses@.len()
                && (statuses@[index as int] matches FlowStatus::Failed(m) && error@ == m@)
                && (forall|j: int| 0 <= j < index ==> !(statuses@[j] is Failed)),
            JoinError::Incomplete { index } =>
                index < statuses@.len()
                && statuses@[index as int] is Abandoned
                && !some_failed(statuses@)
                && (forall|j: int| 0 <= j < index ==> statuses@[j] is Succeeded),
        }),
{
    let n = statuses.len();
    let mut i: usize = 0;
    while i < n
        invariant
            n == statuses@.len(),
            i <= n,
            forall|j: int| 0 <= j < i ==> !(statuses@[j] is Failed),
        decreases n - i,
    {
        match &statuses[i] {
            FlowStatus::Failed(m) => {
                return Err(JoinError::Failed { index: i, error: crate::poll::clone_bytes(m) });
            }
            _ => {}
        }
        i += 1;
    }
    let mut k: usize = 0;
    while k < n
        invariant
            n == statuses@.len(),
            k <= n,
            forall|j: int| 0 <= j < statuses@.len() ==> !(statuses@[j] is Failed),
            forall|j: int| 0 <= j < k ==> statuses@[j] is Succeeded,
        decreases n - k,
    {
        match &statuses[k] {
            FlowStatus::Abandoned => {
                return Err(JoinError::Incomplete { index: k });
            }
            _ => {}
        }
        k += 1;
    }
    Ok(())
}

/// The finalize step, and everything else downstream of the join, may run
/// exactly when the join succeeded.
pub fn finalize_allowed(join: &Result<(), JoinError>) -> (b: bool)
    ensures
        b == (join is Ok),
{
    join.is_ok()
}

/// The sentinel written to the ready-file on success: the bytes of `READY`.
pub open spec fn ready_sentinel() -> Seq<u8> {
    seq![0x52u8, 0x45u8, 0x41u8, 0x44u8, 0x59u8]
}

/// The sentinel written to the ready-file on failure: the bytes of `ERROR`.
pub open spec fn error_sentinel() -> Seq<u8> {
    seq![0x45u8, 0x52u8, 0x52u8, 0x4fu8, 0x52u8]
}

/// The exact content of the ready-file for a setup that ended as `ok` says:
/// `READY` on success, `ERROR` on failure, never anything else, so an
/// external waiter is never left watching a file that will not come.
pub fn ready_file_contents(ok: bool) -> (c: Vec<u8>)
    ensures
        c@ == (if ok { ready_sentinel() } else { error_sentinel() }),
{
    let mut c: Vec<u8> = Vec::new();
    if ok {
        c.push(0x52);
        c.push(0x45);
        c.push(0x41);
        c.push(0x44);
        c.push(0x59);
        assert(c@ =~= ready_sentinel());
    } else {
        c.push(0x45);
        c.push(0x52);
        c.push(0x52);
        c.push(0x4f);
        c.push(0x52);
        assert(c@ =~= error_sentinel());
    }
    c
}

/// Law: a failed sub-flow fails the whole join, and nothing downstream of
/// the join (finalize, the ready-file success sentinel) can then run: the
/// join is not successful, whatever the other sub-flows produced.
pub proof fn lemma_failure_aborts_join(statuses: Seq<FlowStatus>, i: int)
    requires
        0 <= i < statuses.len(),
        statuses[i] is Failed,
    ensures
        some_failed(statuses),
        !all_succeeded(statuses),
{
    assert(some_failed(statuses));
    assert(!(statuses[i] is Succeeded));
}

/// One step the orchestrator takes downstream of the join, in order.
#[derive(PartialEq, Eq, Structural, Clone, Copy, Debug)]
pub enum ReadyStep {
    /// Publish the derived federation invite into the environment artifact.
    PublishInvite,
    /// Run the finalize step of the setup.
    Finalize,
    /// Write the ready-file, with the success sentinel when the argument is
    /// true and the error sentinel otherwise.
    WriteReady(bool),
    /// Run the trailing user command.
    RunUserCommand,
    /// Request the task group's shutdown.
    RequestShutdown,
    /// Wait for a shutdown signal from outside.
    WaitForShutdownSignal,
}

/// What the orchestrator does after the join, step by step: on success the
/// invite is published and the setup finalized before the success sentinel is
/// written, then a trailing user command (when given) runs and requests
/// shutdown, else the run waits for an outside signal; on failure only the
/// error sentinel is written — never the success one, and neither finalize
/// nor the user command runs — and shutdown is requested. The ready-file is
/// written exactly once either way.
pub fn after_join_plan(join: &Result<(), JoinError>, has_user_cmd: bool) -> (plan: Vec<ReadyStep>)
    ensures
        (join is Ok && has_user_cmd) ==> plan@ == seq![
            ReadyStep::PublishInvite,
            ReadyStep::Finalize,
            ReadyStep::WriteReady(true),
            ReadyStep::RunUserCommand,
            ReadyStep::RequestShutdown,
            ReadyStep::WaitForShutdownSignal,
        ],
        (join is Ok && !has_user_cmd) ==> plan@ == seq![
            ReadyStep::PublishInvite,
            ReadyStep::Finalize,
            ReadyStep::WriteReady(true),
            ReadyStep::WaitForShutdownSignal,
        ],
        join is Err ==> plan@ == seq![
            ReadyStep::WriteReady(false),
            ReadyStep::RequestShutdown,
        ],
{
    let mut plan: Vec<ReadyStep> = Vec::new();
    if join.is_ok() {
        plan.push(ReadyStep::PublishInvite);
        plan.push(ReadyStep::Finalize);
        plan.push(ReadyStep::WriteReady(true));
        if has_user_cmd {
            plan.push(ReadyStep::RunUserCommand);
            plan.push(ReadyStep::RequestShutdown);
            assert(plan@ =~= seq![
                ReadyStep::PublishInvite,
                ReadyStep::Finalize,
                ReadyStep::WriteReady(true),
                ReadyStep::RunUserCommand,
                ReadyStep::RequestShutdown,
            ]);
        }
        plan.push(ReadyStep::WaitForShutdownSignal);
        if has_user_cmd {
            assert(plan@ =~= seq![
                ReadyStep::PublishInvite,
                ReadyStep::Finalize,
                ReadyStep::WriteReady(true),
                ReadyStep::RunUserCommand,
                ReadyStep::RequestShutdown,
                ReadyStep::WaitForShutdownSignal,
            ]);
        } else {
            assert(plan@ =~= seq![
                ReadyStep::PublishInvite,
                ReadyStep::Finalize,
                ReadyStep::WriteReady(true),
                ReadyStep::WaitForShutdownSignal,
            ]);
        }
    } else {
        plan.push(ReadyStep::WriteReady(false));
        plan.push(ReadyStep::RequestShutdown);
        assert(plan@ =~= seq![ReadyStep::WriteReady(false), ReadyStep::RequestShutdown]);
    }
    plan
}

/// The fixed plan of the federation setup's deposit sub-flows: how much the
/// client and each gateway peg in, and how many blocks are mined so the
/// deposits confirm.
pub struct PeginPlan {
    pub client_sats: u64,
    pub gateway_sats: u64,
    pub confirmation_blocks: u64,
}

/// The plan used by the full-federation setup: one client deposit of 10 000
/// sats, one 20 000 sat peg-in per gateway, and 11 blocks mined on top.
pub fn pegin_plan() -> (p: PeginPlan)
    ensures
        p.client_sats == 10_000,
        p.gateway_sats == 20_000,
        p.confirmation_blocks == 11,
{
    PeginPlan { client_sats: 10_000, gateway_sats: 20_000, confirmation_blocks: 11 }
}

} // verus!
