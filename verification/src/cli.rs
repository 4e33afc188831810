//! The command-line surface: the common arguments, the commands, and the
//! decisions each command takes on the values the outside world hands back.
//!
//! Argument parsing itself, and all file and process I/O, live outside the
//! library; what is derived from the arguments and what each observation
//! means are verified here.

use vstd::prelude::*;
use crate::poll::PollOutcome;
use rand::Rng;

verus! {

/// How long the `wait` operation polls for the ready-file before giving up.
pub const WAIT_TIMEOUT_MS: u64 = 60_000;

/// The fixed pause between two predicate evaluations of a poll.
pub const POLL_INTERVAL_MS: u64 = 50;

/// The arguments every command shares: where the test directory lives, how
/// large the federation is, how many of its nodes stay offline, and whether
/// a link to the test directory is maintained elsewhere.
pub struct CommonArgs {
    /// An explicit test directory; without it one is derived under the
    /// system's temporary directory.
    pub test_dir: Option<Vec<u8>>,
    pub fed_size: usize,
    /// Where to keep a link to the test directory, if anywhere.
    pub link_test_dir: Option<Vec<u8>>,
    /// The random suffix of the derived test directory's name.
    pub link_test_dir_suffix: Vec<u8>,
    /// How many federation nodes are left shut down, for degraded runs.
    pub offline_nodes: usize,
}

/// The bytes of `devimint-`.
pub open spec fn devimint_prefix() -> Seq<u8> {
    seq![0x64u8, 0x65u8, 0x76u8, 0x69u8, 0x6du8, 0x69u8, 0x6eu8, 0x74u8, 0x2du8]
}

/// The name of the derived test directory: `devimint-<pid>-<suffix>`.
pub open spec fn default_test_dir_name(pid: nat, suffix: Seq<u8>) -> Seq<u8> {
    devimint_prefix() + crate::config::decimal_spec(pid) + seq![0x2du8] + suffix
}

/// The test directory an invocation works in: the explicit one when given,
/// else `devimint-<pid>-<suffix>` under the system's temporary directory.
pub open spec fn test_dir_spec(
    explicit: Option<Vec<u8>>,
    suffix: Seq<u8>,
    temp_dir: Seq<u8>,
    pid: nat,
) -> Seq<u8> {
    match explicit {
        Some(d) => d@,
        None => crate::config::path_join_spec(temp_dir, default_test_dir_name(pid, suffix)),
    }
}

impl CommonArgs {
    /// The test directory this invocation works in. The temporary directory
    /// and the process id come from the caller: they are read from the
    /// environment, which the library does not touch.
    pub fn test_dir(&self, temp_dir: &Vec<u8>, pid: u64) -> (p: Vec<u8>)
        ensures
            p@ == test_dir_spec(
                self.test_dir,
                self.link_test_dir_suffix@,
                temp_dir@,
                pid as nat,
            ),
    {
        match &self.test_dir {
            Some(d) => crate::poll::clone_bytes(d),
            None => {
                let mut name: Vec<u8> = Vec::new();
                name.push(0x64);
                name.push(0x65);
                name.push(0x76);
                name.push(0x69);
                name.push(0x6d);
                name.push(0x69);
                name.push(0x6e);
                name.push(0x74);
                name.push(0x2d);
                assert(name@ =~= devimint_prefix());
                let digits = crate::config::u64_to_decimal(pid);
                crate::envfile::push_bytes(&mut name, &digits);
                name.push(0x2d);
                crate::envfile::push_bytes(&mut name, &self.link_test_dir_suffix);
                assert(name@ =~= default_test_dir_name(pid as nat, self.link_test_dir_suffix@));
                crate::config::path_join(temp_dir, &name)
            }
        }
    }
}

/// The commands the orchestrator answers to.
pub enum Cmd {
    /// Bring up only the external daemons, then run the trailing user
    /// command if one was given, else wait for a shutdown signal.
    ExternalDaemons { user_cmd: Option<Vec<Vec<u8>>> },
    /// Bring up the external daemons and a full federation, peg in the
    /// client and both gateways, then behave as `ExternalDaemons` does.
    DevFed { user_cmd: Option<Vec<Vec<u8>>> },
    /// Bring up the external daemons and the federation servers only.
    RunUi,
    /// Talk to an already-running orchestrator through its on-disk
    /// artifacts.
    Rpc(RpcCmd),
}

/// The two operations of the artifact protocol: `Wait` blocks until the
/// ready-file exists and prints it; `Env` blocks until the env-file exists
/// and prints it.
pub enum RpcCmd {
    Wait,
    Env,
}

/// What to do about the link to the test directory: create it when nothing
/// is there, replace it when it points elsewhere, keep it when it already
/// points at the test directory.
pub enum LinkAction {
    CreateLink,
    ReplaceLink,
    KeepLink,
}

/// Decides what to do with the test-directory link, given where the
/// existing link points (if one can be read at all).
pub fn link_action(existing: Option<&Vec<u8>>, test_dir: &Vec<u8>) -> (a: LinkAction)
    ensures
        (existing matches Some(e) ==> a == (if e@ == test_dir@ {
            LinkAction::KeepLink
        } else {
            LinkAction::ReplaceLink
        })),
        existing is None ==> a == LinkAction::CreateLink,
{
    match existing {
        Some(e) => {
            if crate::bytes_eq(e, test_dir) {
                LinkAction::KeepLink
            } else {
                LinkAction::ReplaceLink
            }
        }
        None => LinkAction::CreateLink,
    }
}

/// The words of a user command joined by single spaces, for display.
pub open spec fn join_args_spec(args: Seq<Seq<u8>>) -> Seq<u8>
    decreases args.len(),
{
    if args.len() == 0 {
        Seq::empty()
    } else if args.len() == 1 {
        args[0]
    } else {
        args[0] + seq![0x20u8] + join_args_spec(args.skip(1))
    }
}

pub proof fn lemma_join_args_snoc(args: Seq<Seq<u8>>, a: Seq<u8>)
    requires
        args.len() >= 1,
    ensures
        join_args_spec(args.push(a)) == join_args_spec(args) + seq![0x20u8] + a,
    decreases args.len(),
{
    if args.len() == 1 {
        assert(args.push(a).skip(1) =~= seq![a]);
        assert(join_args_spec(seq![a]) == a);
        assert(join_args_spec(args.push(a)) =~= join_args_spec(args) + seq![0x20u8] + a);
    } else {
        assert(args.push(a).skip(1) =~= args.skip(1).push(a));
        lemma_join_args_snoc(args.skip(1), a);
        assert(join_args_spec(args.push(a)) =~= join_args_spec(args) + seq![0x20u8] + a);
    }
}

/// The views of a list of argument words.
pub open spec fn arg_views(args: Seq<Vec<u8>>) -> Seq<Seq<u8>> {
    args.map(|i: int, a: Vec<u8>| a@)
}

/// Joins the words of a user command with single spaces, as it is shown in
/// diagnostics.
pub fn join_args(args: &Vec<Vec<u8>>) -> (out: Vec<u8>)
    ensures
        out@ == join_args_spec(arg_views(args@)),
{
    let mut out: Vec<u8> = Vec::new();
    if args.len() == 0 {
        return out;
    }
    crate::envfile::push_bytes(&mut out, &args[0]);
    assert(out@ =~= join_args_spec(arg_views(args@).take(1)));
    let mut i: usize = 1;
    while i < args.len()
        invariant
            1 <= i <= args@.len(),
            out@ == join_args_spec(arg_views(args@).take(i as int)),
        decreases args.len() - i,
    {
        out.push(0x20);
        crate::envfile::push_bytes(&mut out, &args[i]);
        proof {
            let views = arg_views(args@);
            lemma_join_args_snoc(views.take(i as int), views[i as int]);
            assert(views.take(i as int).push(views[i as int]) =~= views.take(i + 1 as int));
        }
        i += 1;
    }
    assert(arg_views(args@).take(args@.len() as int) =~= arg_views(args@));
    out
}

/// A user command that exited unsuccessfully, remembered by its rendering.
pub struct UserCommandError {
    pub command: Vec<u8>,
}

/// Decides what a user command's exit means: success is quiet; anything
/// else is an error naming the command.
pub fn user_command_verdict(exit_success: bool, args: &Vec<Vec<u8>>) -> (r: Result<
    (),
    UserCommandError,
>)
    ensures
        r is Ok <==> exit_success,
        (r matches Err(e) ==> e.command@ == join_args_spec(arg_views(args@))),
{
    if exit_success {
        Ok(())
    } else {
        Err(UserCommandError { command: join_args(args) })
    }
}

/// What one look for an artifact file found: whether it exists, or why the
/// look itself failed.
pub type FileCheck = Result<bool, Vec<u8>>;

/// Decides what one existence check of an artifact file means to the poll:
/// an existing file is readiness; a missing file, and equally an error from
/// the check itself, only means "not yet" and keeps the poll going.
pub fn file_poll_outcome(found: FileCheck, missing_reason: Vec<u8>) -> (o: PollOutcome<()>)
    ensures
        (found matches Ok(true) ==> o matches PollOutcome::Ready(u) && u == ()),
        (found matches Ok(false) ==> o matches PollOutcome::Retry(r) && r@ == missing_reason@),
        (found matches Err(e) ==> o matches PollOutcome::Retry(r) && r@ == e@),
{
    match found {
        Ok(true) => PollOutcome::Ready(()),
        Ok(false) => PollOutcome::Retry(missing_reason),
        Err(e) => PollOutcome::Retry(e),
    }
}

/// Relies on rand's `Rng::gen_range` over the half-open range `0..10`: the
/// sampled value lies in the range. Nothing else is assumed of it.
#[verifier::external_body]
fn random_digit_value() -> (d: u8)
    ensures
        d < 10,
{
    rand::thread_rng().gen_range(0..10u8)
}

/// Three random decimal digits, used to keep the derived test directories of
/// concurrent invocations apart.
pub fn random_test_dir_suffix() -> (s: Vec<u8>)
    ensures
        s@.len() == 3,
        forall|i: int| 0 <= i < s@.len() ==> crate::is_ascii_digit(s@[i]),
{
    let mut s: Vec<u8> = Vec::new();
    let mut i: usize = 0;
    while i < 3
        invariant
            i <= 3,
            s@.len() == i,
            forall|j: int| 0 <= j < s@.len() ==> crate::is_ascii_digit(s@[j]),
        decreases 3 - i,
    {
        let d = random_digit_value();
        s.push(0x30 + d);
        i += 1;
    }
    s
}

} // verus!
