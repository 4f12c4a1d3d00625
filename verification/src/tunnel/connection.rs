//! Forming, joining and tearing down the ephemeral network.
//!
//! What has to be run, in which order, and which failures count is decided
//! here. How a step is carried out on a given system is the driver's
//! business: it runs the steps of a plan in order, notes for each whether it
//! succeeded, and hands the notes back for the verdict.

use crate::crypto::{wifi_accepts, wifi_compatible, CredentialsView};
use crate::error::FlingError;
use vstd::prelude::*;
use vstd::string::*;

verus! {

/// The address of the sender on the ephemeral network.
pub const GATEWAY: &'static str = "10.42.0.1";

/// What every address on the ephemeral network starts with.
pub const SUBNET: &'static str = "10.42.0.";

/// How long a new network is given to settle, in milliseconds.
pub const SETTLE_MS: u64 = 2000;

/// One thing the network stack can be told to do.
#[derive(Clone, Copy, Debug, PartialEq, Eq, Structural)]
pub enum FabricCommand {
    /// Take down an ephemeral network that this host still runs.
    StopHotspot,
    /// Detach the wireless interface from whatever it is connected to.
    ReleaseInterface,
    /// Bring up an access point with the session's credentials.
    StartHotspot,
    /// Associate with the network that has the session's credentials.
    Associate,
    /// Restart the service that manages the host's networking.
    RestartManager,
    /// Switch the wireless radio back on.
    EnableRadio,
}

/// A step of a plan: a command, and whether the plan fails with it.
#[derive(Clone, Copy, Debug, PartialEq, Eq, Structural)]
pub struct FabricStep {
    pub command: FabricCommand,
    pub required: bool,
}

/// How to create the network: clear away what may be left of an earlier one,
/// then start the access point. Only the last step has to succeed.
pub open spec fn creation_steps() -> Seq<FabricStep> {
    seq![
        FabricStep { command: FabricCommand::StopHotspot, required: false },
        FabricStep { command: FabricCommand::ReleaseInterface, required: false },
        FabricStep { command: FabricCommand::StartHotspot, required: true },
    ]
}

/// How to join the network: associate, and that has to succeed.
pub open spec fn join_steps() -> Seq<FabricStep> {
    seq![FabricStep { command: FabricCommand::Associate, required: true }]
}

/// How to tear the network down: stop the access point, restart the network
/// manager, switch the radio on. None of it has to succeed.
pub open spec fn cleanup_steps() -> Seq<FabricStep> {
    seq![
        FabricStep { command: FabricCommand::StopHotspot, required: false },
        FabricStep { command: FabricCommand::RestartManager, required: false },
        FabricStep { command: FabricCommand::EnableRadio, required: false },
    ]
}

/// Whether a plan went through: every required step was run and succeeded.
/// `outcomes[i]` tells whether step `i` succeeded; a step without an outcome
/// was not run.
pub open spec fn plan_holds(plan: Seq<FabricStep>, outcomes: Seq<bool>) -> bool {
    forall|i: int| 0 <= i < plan.len() && (#[trigger] plan[i]).required ==> i < outcomes.len() && outcomes[i]
}

/// How many of the outcomes tell of a failure.
pub open spec fn failed_among(outcomes: Seq<bool>) -> nat
    decreases outcomes.len(),
{
    if outcomes.len() == 0 {
        0
    } else {
        failed_among(outcomes.drop_last()) + (if outcomes.last() {
            0nat
        } else {
            1nat
        })
    }
}

/// How many steps of a plan were run and did not succeed. Outcomes beyond
/// the end of the plan belong to no step and are not counted.
pub open spec fn failures(plan: Seq<FabricStep>, outcomes: Seq<bool>) -> nat {
    if outcomes.len() <= plan.len() {
        failed_among(outcomes)
    } else {
        failed_among(outcomes.take(plan.len() as int))
    }
}

/// The steps that create the network, in the order in which they are run.
pub fn creation_plan() -> (plan: Vec<FabricStep>)
    ensures
        plan@ == creation_steps(),
{
    let mut plan = Vec::new();
    plan.push(FabricStep { command: FabricCommand::StopHotspot, required: false });
    plan.push(FabricStep { command: FabricCommand::ReleaseInterface, required: false });
    plan.push(FabricStep { command: FabricCommand::StartHotspot, required: true });
    assert(plan@ =~= creation_steps());
    plan
}

/// The steps that join the network, in the order in which they are run.
pub fn join_plan() -> (plan: Vec<FabricStep>)
    ensures
        plan@ == join_steps(),
{
    let mut plan = Vec::new();
    plan.push(FabricStep { command: FabricCommand::Associate, required: true });
    assert(plan@ =~= join_steps());
    plan
}

/// The steps that tear the network down, in the order in which they are run.
pub fn cleanup_plan() -> (plan: Vec<FabricStep>)
    ensures
        plan@ == cleanup_steps(),
{
    let mut plan = Vec::new();
    plan.push(FabricStep { command: FabricCommand::StopHotspot, required: false });
    plan.push(FabricStep { command: FabricCommand::RestartManager, required: false });
    plan.push(FabricStep { command: FabricCommand::EnableRadio, required: false });
    assert(plan@ =~= cleanup_steps());
    plan
}

/// Decides whether a plan went through.
pub fn plan_succeeded(plan: &[FabricStep], outcomes: &[bool]) -> (ok: bool)
    ensures
        ok == plan_holds(plan@, outcomes@),
{
    let mut i: usize = 0;
    while i < plan.len()
        invariant
            i <= plan@.len(),
            forall|j: int| 0 <= j < i && (#[trigger] plan@[j]).required ==> j < outcomes@.len() && outcomes@[j],
        decreases plan@.len() - i,
    {
        if plan[i].required && !(i < outcomes.len() && outcomes[i]) {
            return false;
        }
        i += 1;
    }
    true
}

/// Whether the steps run so far leave the plan standing: none of them was
/// required and failed.
pub open spec fn stands_so_far(plan: Seq<FabricStep>, outcomes: Seq<bool>) -> bool {
    forall|i: int|
        0 <= i < plan.len() && i < outcomes.len() && (#[trigger] plan[i]).required ==> outcomes[i]
}

/// The step to run next: the first one without an outcome, as long as the
/// plan still stands. There is none once every step has run or a required
/// step has failed.
pub open spec fn step_after(plan: Seq<FabricStep>, outcomes: Seq<bool>) -> Option<FabricCommand> {
    if outcomes.len() < plan.len() && stands_so_far(plan, outcomes) {
        Some(plan[outcomes.len() as int].command)
    } else {
        None
    }
}

/// Tells the driver which step of a plan to run next, given how the steps
/// before it went.
pub fn next_step(plan: &[FabricStep], outcomes: &[bool]) -> (next: Option<FabricCommand>)
    ensures
        next == step_after(plan@, outcomes@),
{
    if outcomes.len() >= plan.len() {
        return None;
    }
    let mut i: usize = 0;
    while i < outcomes.len()
        invariant
            i <= outcomes@.len() < plan@.len(),
            forall|j: int| 0 <= j < i && (#[trigger] plan@[j]).required ==> outcomes@[j],
        decreases outcomes@.len() - i,
    {
        if plan[i].required && !outcomes[i] {
            return None;
        }
        i += 1;
    }
    Some(plan[outcomes.len()].command)
}

/// A plan that is run step by step as [`next_step`] says, to the end, went
/// through if and only if it still stands at the end: running stops early
/// only where the plan has failed already.
pub proof fn finished_plan_holds(plan: Seq<FabricStep>, outcomes: Seq<bool>)
    requires
        step_after(plan, outcomes) is None,
        outcomes.len() <= plan.len(),
    ensures
        plan_holds(plan, outcomes) <==> (outcomes.len() == plan.len() && stands_so_far(plan, outcomes)),
{
    if plan_holds(plan, outcomes) {
        if outcomes.len() < plan.len() {
            assert(!stands_so_far(plan, outcomes));
            let i = choose|i: int|
                0 <= i < plan.len() && i < outcomes.len() && (#[trigger] plan[i]).required && !outcomes[i];
            assert(plan[i].required);
        }
    }
}

/// What creating the network comes to, given how the steps of
/// [`creation_plan`] went: the sender's address on the new network, or a
/// failure where the credentials do not fit a wireless network or the
/// access point did not start.
pub open spec fn creation_result(ssid: Seq<char>, password: Seq<char>, outcomes: Seq<bool>) -> Result<
    Seq<char>,
    FlingError,
> {
    if wifi_compatible(CredentialsView { ssid, password }) && plan_holds(creation_steps(), outcomes) {
        Ok(GATEWAY@)
    } else {
        Err(FlingError::NetworkFormationFailed)
    }
}

/// The view of a result that carries a string.
pub open spec fn text_outcome(value: Result<String, FlingError>) -> Result<Seq<char>, FlingError> {
    match value {
        Ok(s) => Ok(s@),
        Err(e) => Err(e),
    }
}

/// Says what creating the network came to. `outcomes` tells how the steps of
/// [`creation_plan`] went.
pub fn create_wifi_direct_network(ssid: &str, password: &str, outcomes: &[bool]) -> (gateway: Result<
    String,
    FlingError,
>)
    ensures
        text_outcome(gateway) == creation_result(ssid@, password@, outcomes@),
{
    let plan = creation_plan();
    if wifi_accepts(ssid, password) && plan_succeeded(plan.as_slice(), outcomes) {
        Ok(String::from_str(GATEWAY))
    } else {
        Err(FlingError::NetworkFormationFailed)
    }
}

/// Says whether the network was joined: the credentials fit a wireless
/// network and the association succeeded. `outcomes` tells how the steps of
/// [`join_plan`] went.
pub fn join_wifi_direct_network(ssid: &str, password: &str, outcomes: &[bool]) -> (joined: bool)
    ensures
        joined == (wifi_compatible(CredentialsView { ssid: ssid@, password: password@ }) && plan_holds(
            join_steps(),
            outcomes@,
        )),
{
    let plan = join_plan();
    wifi_accepts(ssid, password) && plan_succeeded(plan.as_slice(), outcomes)
}

/// Counts, for the log, the steps of [`cleanup_plan`] that were run and did
/// not succeed. Tearing down has no other result: it cannot fail.
pub fn cleanup_wifi(outcomes: &[bool]) -> (failed: usize)
    ensures
        failed == failures(cleanup_steps(), outcomes@),
        failed <= 3,
{
    let plan = cleanup_plan();
    let run = if outcomes.len() <= plan.len() {
        outcomes.len()
    } else {
        plan.len()
    };
    let mut failed: usize = 0;
    let mut i: usize = 0;
    while i < run
        invariant
            i <= run <= outcomes@.len(),
            run <= 3,
            failed <= i,
            failed == failed_among(outcomes@.take(i as int)),
        decreases run - i,
    {
        if !outcomes[i] {
            failed += 1;
        }
        proof {
            assert(outcomes@.take(i + 1).drop_last() =~= outcomes@.take(i as int));
        }
        i += 1;
    }
    proof {
        if outcomes@.len() <= plan@.len() {
            assert(outcomes@.take(run as int) =~= outcomes@);
        }
    }
    failed
}

/// Tearing down goes through whatever happens to its steps, the first time
/// and every time after: none of its steps is required.
pub proof fn cleanup_never_fails(first: Seq<bool>, second: Seq<bool>)
    ensures
        plan_holds(cleanup_steps(), first),
        plan_holds(cleanup_steps(), second),
{
}

/// Creating the network starts by clearing away what an earlier creation
/// left behind, and does not depend on how that goes: only the start of the
/// access point decides.
pub proof fn creation_clears_first(outcomes: Seq<bool>)
    ensures
        creation_steps()[0].command == FabricCommand::StopHotspot,
        plan_holds(creation_steps(), outcomes) <==> (outcomes.len() > 2 && outcomes[2]),
{
    if outcomes.len() > 2 && outcomes[2] {
        assert forall|i: int| 0 <= i < creation_steps().len() && (#[trigger] creation_steps()[i]).required implies i
            < outcomes.len() && outcomes[i] by {
            assert(i == 2);
        }
    }
    if plan_holds(creation_steps(), outcomes) {
        assert(creation_steps()[2].required);
    }
}

/// What a bounded wait tells its driver.
#[derive(Clone, Copy, Debug, PartialEq, Eq, Structural)]
pub enum Poll {
    /// What was waited for is there.
    Ready,
    /// Not yet. Pause for so many milliseconds and look again.
    Retry(u64),
    /// Not yet, and the wait is over.
    TimedOut,
}

/// The verdict of a wait that is bounded by a number of looks: `seen` tells
/// whether this look found what is waited for, `looks_before` how many looks
/// came before it.
pub open spec fn counted_poll(seen: bool, looks_before: u32, limit: u32, pause_ms: u64) -> Poll {
    if seen {
        Poll::Ready
    } else if looks_before + 1 < limit {
        Poll::Retry(pause_ms)
    } else {
        Poll::TimedOut
    }
}

/// The verdict of a wait that is bounded by time: `seen` tells whether this
/// look found what is waited for, `elapsed_ms` how long the wait has lasted.
pub open spec fn timed_poll(seen: bool, elapsed_ms: u64, window_ms: u64, pause_ms: u64) -> Poll {
    if seen {
        Poll::Ready
    } else if elapsed_ms < window_ms {
        Poll::Retry(pause_ms)
    } else {
        Poll::TimedOut
    }
}

/// Gives the verdict of a wait that is bounded by a number of looks.
pub fn poll_counted(seen: bool, looks_before: u32, limit: u32, pause_ms: u64) -> (poll: Poll)
    ensures
        poll == counted_poll(seen, looks_before, limit, pause_ms),
{
    if seen {
        Poll::Ready
    } else if looks_before < limit && looks_before + 1 < limit {
        Poll::Retry(pause_ms)
    } else {
        Poll::TimedOut
    }
}

/// Gives the verdict of a wait that is bounded by time.
pub fn poll_timed(seen: bool, elapsed_ms: u64, window_ms: u64, pause_ms: u64) -> (poll: Poll)
    ensures
        poll == timed_poll(seen, elapsed_ms, window_ms, pause_ms),
{
    if seen {
        Poll::Ready
    } else if elapsed_ms < window_ms {
        Poll::Retry(pause_ms)
    } else {
        Poll::TimedOut
    }
}

/// What a wait that has ended reports, with `timeout` as the failure of a
/// wait that ran out. A wait that goes on reports nothing yet.
pub open spec fn poll_outcome(poll: Poll, timeout: FlingError) -> Option<Result<(), FlingError>> {
    match poll {
        Poll::Ready => Some(Ok(())),
        Poll::Retry(_) => None,
        Poll::TimedOut => Some(Err(timeout)),
    }
}

impl Poll {
    /// What the wait reports once it has ended.
    pub fn outcome(self, timeout: FlingError) -> (outcome: Option<Result<(), FlingError>>)
        ensures
            outcome == poll_outcome(self, timeout),
    {
        match self {
            Poll::Ready => Some(Ok(())),
            Poll::Retry(_) => None,
            Poll::TimedOut => Some(Err(timeout)),
        }
    }
}

/// Turns the answer of [`join_wifi_direct_network`] into a result.
pub fn join_result(joined: bool) -> (result: Result<(), FlingError>)
    ensures
        result == (if joined {
            Ok::<(), FlingError>(())
        } else {
            Err::<(), FlingError>(FlingError::NetworkJoinFailed)
        }),
{
    if joined {
        Ok(())
    } else {
        Err(FlingError::NetworkJoinFailed)
    }
}

} // verus!
