//! The monitors' shared decision logic.
//!
//! Both the poll monitor (driven by a timer) and the event monitor (driven by
//! the notification stream) apply the same decision table to the modem state
//! they observe: Registered calls for a connect, Disabled for a re-enable,
//! every other state is only logged. A corrective action is guarded by the
//! shared [`Arbiter`]: the token is taken before the first service call of the
//! action and returned when the action completes, successfully or not.
//!
//! The logic is a step function from a monitor's phase and an incoming event
//! to the next phase and the action to take. The caller performs the service
//! calls the actions name and feeds the outcome back in as the next event; a
//! failed service call is fatal to the monitor that made it.

use vstd::prelude::*;

use crate::arbiter::{AcquireOutcome, Arbiter};
use crate::codec::{
    spec_decode_reason,
    spec_decode_state,
    DecodeError,
    ModemState,
    StateChangedArgs,
};
use crate::snapshot::{extract_state, spec_extract_state, StatusSnapshot};

verus! {

/// Connection parameters handed to the Connect call. Fixed external
/// configuration for this deployment, never negotiated.
#[derive(Debug, PartialEq, Eq)]
pub struct ConnectParams {
    pub apn: String,
    pub user: String,
    pub password: String,
    pub allowed_auth: String,
}

impl Clone for ConnectParams {
    /// The copy carries the same four parameters.
    fn clone(&self) -> (r: Self)
        ensures
            r == *self,
    {
        ConnectParams {
            apn: self.apn.clone(),
            user: self.user.clone(),
            password: self.password.clone(),
            allowed_auth: self.allowed_auth.clone(),
        }
    }
}

impl ConnectParams {
    /// The deployment's documented default parameters.
    pub fn defaults() -> (p: ConnectParams)
        ensures
            p.apn@ == "giffgaff.com"@,
            p.user@ == "gg"@,
            p.password@ == "p"@,
            p.allowed_auth@ == "pap"@,
    {
        ConnectParams {
            apn: "giffgaff.com".to_owned(),
            user: "gg".to_owned(),
            password: "p".to_owned(),
            allowed_auth: "pap".to_owned(),
        }
    }
}

/// Process configuration consumed by the supervision logic.
#[derive(Debug, PartialEq, Eq)]
pub struct SupervisorConfig {
    /// When set, mutating service calls are suppressed.
    pub dry_run: bool,
    /// Seconds between two periodic status checks.
    pub check_interval_secs: u64,
    /// Seconds between two signal-quality reports after a connect.
    pub signal_refresh_rate: u32,
    /// Parameters for the Connect call.
    pub connect: ConnectParams,
}

impl SupervisorConfig {
    /// Documented defaults: check every 60 s, report signal quality every
    /// 5 s, dry-run off, the deployment's connection parameters.
    pub fn defaults() -> (c: SupervisorConfig)
        ensures
            !c.dry_run,
            c.check_interval_secs == 60,
            c.signal_refresh_rate == 5,
            c.connect.apn@ == "giffgaff.com"@,
            c.connect.user@ == "gg"@,
            c.connect.password@ == "p"@,
            c.connect.allowed_auth@ == "pap"@,
    {
        SupervisorConfig {
            dry_run: false,
            check_interval_secs: 60,
            signal_refresh_rate: 5,
            connect: ConnectParams::defaults(),
        }
    }
}

/// A call the monitor asks the modem service client to perform.
#[derive(Debug, PartialEq, Eq)]
pub enum ServiceCall {
    /// Establish a bearer with the given parameters.
    Connect(ConnectParams),
    /// Transition the modem toward Enabled or Disabled.
    Enable(bool),
    /// Enable periodic signal-quality reports at the given rate in seconds.
    SetupSignalReporting(u32),
}

/// What a monitor does in response to one event.
#[derive(Debug, PartialEq, Eq)]
pub enum MonitorAction {
    /// Perform this service call and feed its outcome back in.
    Call(ServiceCall),
    /// Another corrective action is in flight; the trigger is dropped.
    SkipBusy,
    /// Dry-run suppressed a corrective action.
    SuppressedDryRun,
    /// The modem reports Connected; log only.
    NoteConnected,
    /// An uninteresting known state; log only.
    Observe,
    /// No usable state was reported; warn only.
    WarnNoState,
    /// The guarded action finished; the token has been returned.
    Completed,
    /// A service call failed; the monitor must stop and surface the error.
    Fatal,
}

/// Where a monitor stands in its guarded corrective action.
#[derive(Clone, Copy, Debug, PartialEq, Eq, Structural)]
pub enum MonitorPhase {
    /// No action in flight; the next event is an observation.
    Watching,
    /// Token held; a Connect call is outstanding.
    Connecting,
    /// Token held; a signal-reporting setup call is outstanding.
    ReportingSignal,
    /// Token held; an Enable call is outstanding.
    Enabling,
}

/// One event a monitor reacts to.
#[derive(Clone, Copy, Debug, PartialEq, Eq)]
pub enum MonitorEvent {
    /// A state observation: from a status query or a decoded signal.
    Observed(Option<ModemState>),
    /// The outstanding service call succeeded.
    CallOk,
    /// The outstanding service call failed.
    CallFailed,
}

/// The monitors' transition function: from configuration, phase, token state
/// and event to next phase, next token state and the action to take.
pub open spec fn spec_step(
    cfg: SupervisorConfig,
    phase: MonitorPhase,
    held: bool,
    event: MonitorEvent,
) -> (MonitorPhase, bool, MonitorAction) {
    match (phase, event) {
        (MonitorPhase::Watching, MonitorEvent::Observed(observed)) => match observed {
            Some(ModemState::Registered) => if cfg.dry_run {
                (MonitorPhase::Watching, held, MonitorAction::SuppressedDryRun)
            } else if held {
                (MonitorPhase::Watching, true, MonitorAction::SkipBusy)
            } else {
                (
                    MonitorPhase::Connecting,
                    true,
                    MonitorAction::Call(ServiceCall::Connect(cfg.connect)),
                )
            },
            Some(ModemState::Disabled) => if cfg.dry_run {
                (MonitorPhase::Watching, held, MonitorAction::SuppressedDryRun)
            } else if held {
                (MonitorPhase::Watching, true, MonitorAction::SkipBusy)
            } else {
                (MonitorPhase::Enabling, true, MonitorAction::Call(ServiceCall::Enable(true)))
            },
            Some(ModemState::Connected) => (
                MonitorPhase::Watching,
                held,
                MonitorAction::NoteConnected,
            ),
            Some(_) => (MonitorPhase::Watching, held, MonitorAction::Observe),
            None => (MonitorPhase::Watching, held, MonitorAction::WarnNoState),
        },
        (MonitorPhase::Connecting, MonitorEvent::CallOk) => (
            MonitorPhase::ReportingSignal,
            held,
            MonitorAction::Call(ServiceCall::SetupSignalReporting(cfg.signal_refresh_rate)),
        ),
        (MonitorPhase::Connecting, MonitorEvent::CallFailed) => (
            MonitorPhase::Watching,
            false,
            MonitorAction::Fatal,
        ),
        (MonitorPhase::ReportingSignal, MonitorEvent::CallOk) => (
            MonitorPhase::Watching,
            false,
            MonitorAction::Completed,
        ),
        (MonitorPhase::ReportingSignal, MonitorEvent::CallFailed) => (
            MonitorPhase::Watching,
            false,
            MonitorAction::Fatal,
        ),
        (MonitorPhase::Enabling, MonitorEvent::CallOk) => (
            MonitorPhase::Watching,
            false,
            MonitorAction::Completed,
        ),
        (MonitorPhase::Enabling, MonitorEvent::CallFailed) => (
            MonitorPhase::Watching,
            false,
            MonitorAction::Fatal,
        ),
        // Outside the protocol; `step` is never called this way.
        _ => (phase, held, MonitorAction::Fatal),
    }
}

/// Advances one monitor by one event. The caller performs the service call a
/// returned [`MonitorAction::Call`] names and feeds the outcome back in as
/// the next event. The arbiter is the token both monitors share.
pub fn step(
    cfg: &SupervisorConfig,
    phase: MonitorPhase,
    arbiter: &mut Arbiter,
    event: MonitorEvent,
) -> (r: (MonitorPhase, MonitorAction))
    requires
        phase is Watching <==> event is Observed,
        !(phase is Watching) ==> old(arbiter).is_held(),
    ensures
        ({
            let (next_phase, held_after, action) = spec_step(
                *cfg,
                phase,
                old(arbiter).is_held(),
                event,
            );
            &&& r.0 == next_phase
            &&& final(arbiter).is_held() == held_after
            &&& r.1 == action
        }),
{
    match (phase, event) {
        (MonitorPhase::Watching, MonitorEvent::Observed(observed)) => match observed {
            Some(ModemState::Registered) => {
                if cfg.dry_run {
                    (MonitorPhase::Watching, MonitorAction::SuppressedDryRun)
                } else {
                    match arbiter.try_acquire() {
                        AcquireOutcome::Acquired => (
                            MonitorPhase::Connecting,
                            MonitorAction::Call(ServiceCall::Connect(cfg.connect.clone())),
                        ),
                        AcquireOutcome::Busy => (MonitorPhase::Watching, MonitorAction::SkipBusy),
                    }
                }
            },
            Some(ModemState::Disabled) => {
                if cfg.dry_run {
                    (MonitorPhase::Watching, MonitorAction::SuppressedDryRun)
                } else {
                    match arbiter.try_acquire() {
                        AcquireOutcome::Acquired => (
                            MonitorPhase::Enabling,
                            MonitorAction::Call(ServiceCall::Enable(true)),
                        ),
                        AcquireOutcome::Busy => (MonitorPhase::Watching, MonitorAction::SkipBusy),
                    }
                }
            },
            Some(ModemState::Connected) => (MonitorPhase::Watching, MonitorAction::NoteConnected),
            Some(_) => (MonitorPhase::Watching, MonitorAction::Observe),
            None => (MonitorPhase::Watching, MonitorAction::WarnNoState),
        },
        (MonitorPhase::Connecting, MonitorEvent::CallOk) => (
            MonitorPhase::ReportingSignal,
            MonitorAction::Call(ServiceCall::SetupSignalReporting(cfg.signal_refresh_rate)),
        ),
        (MonitorPhase::Connecting, MonitorEvent::CallFailed) => {
            arbiter.release();
            (MonitorPhase::Watching, MonitorAction::Fatal)
        },
        (MonitorPhase::ReportingSignal, MonitorEvent::CallOk) => {
            arbiter.release();
            (MonitorPhase::Watching, MonitorAction::Completed)
        },
        (MonitorPhase::ReportingSignal, MonitorEvent::CallFailed) => {
            arbiter.release();
            (MonitorPhase::Watching, MonitorAction::Fatal)
        },
        (MonitorPhase::Enabling, MonitorEvent::CallOk) => {
            arbiter.release();
            (MonitorPhase::Watching, MonitorAction::Completed)
        },
        (MonitorPhase::Enabling, MonitorEvent::CallFailed) => {
            arbiter.release();
            (MonitorPhase::Watching, MonitorAction::Fatal)
        },
        (MonitorPhase::Watching, MonitorEvent::CallOk)
        | (MonitorPhase::Watching, MonitorEvent::CallFailed)
        | (MonitorPhase::Connecting, MonitorEvent::Observed(_))
        | (MonitorPhase::ReportingSignal, MonitorEvent::Observed(_))
        | (MonitorPhase::Enabling, MonitorEvent::Observed(_)) => {
            proof {
                assert(false);
            }
            (MonitorPhase::Watching, MonitorAction::Fatal)
        },
    }
}

/// The poll monitor's view of one successful status query: an observation of
/// whatever state the snapshot reports. Partial telemetry becomes an
/// observation of no state, never an error.
pub fn poll_event(status: &StatusSnapshot) -> (e: MonitorEvent)
    ensures
        e == MonitorEvent::Observed(spec_extract_state(*status)),
{
    MonitorEvent::Observed(extract_state(status))
}

/// The event monitor's view of one raw state-change signal: an observation
/// of the decoded new state. The old state and the reason inform logging
/// only. A signal with an undecodable field is a terminal condition, since
/// an event without a valid new state cannot be acted on meaningfully.
pub fn signal_event(args: &StateChangedArgs) -> (r: Result<MonitorEvent, DecodeError>)
    ensures
        (spec_decode_state(args.old as int) is Some && spec_decode_state(args.new as int) is Some
            && spec_decode_reason(args.reason as int) is Some) ==> r == Ok::<
            MonitorEvent,
            DecodeError,
        >(MonitorEvent::Observed(Some(spec_decode_state(args.new as int)->0))),
        spec_decode_state(args.old as int) is None ==> r == Err::<
            MonitorEvent,
            DecodeError,
        >(DecodeError::State(args.old)),
        (spec_decode_state(args.old as int) is Some && spec_decode_state(
            args.new as int,
        ) is None) ==> r == Err::<MonitorEvent, DecodeError>(DecodeError::State(args.new)),
        (spec_decode_state(args.old as int) is Some && spec_decode_state(args.new as int) is Some
            && spec_decode_reason(args.reason as int) is None) ==> r == Err::<
            MonitorEvent,
            DecodeError,
        >(DecodeError::Reason(args.reason)),
{
    match args.to_modem_states() {
        Ok(decoded) => Ok(MonitorEvent::Observed(Some(decoded.1))),
        Err(e) => Err(e),
    }
}

/// Law: a monitor in a guarded phase holds the token, and one step keeps it
/// so — a corrective action is in flight only while the token is held.
pub proof fn lemma_step_preserves_protocol(
    cfg: SupervisorConfig,
    phase: MonitorPhase,
    held: bool,
    event: MonitorEvent,
)
    requires
        phase is Watching <==> event is Observed,
        !(phase is Watching) ==> held,
    ensures
        ({
            let (next_phase, held_after, action) = spec_step(cfg, phase, held, event);
            !(next_phase is Watching) ==> held_after
        }),
{
}

/// Law (decision table): with the token available and dry-run off, observing
/// Registered dispatches exactly one Connect with the configured parameters,
/// and the token is held while the call is in flight.
pub proof fn lemma_registered_dispatches_connect(cfg: SupervisorConfig)
    requires
        !cfg.dry_run,
    ensures
        spec_step(
            cfg,
            MonitorPhase::Watching,
            false,
            MonitorEvent::Observed(Some(ModemState::Registered)),
        ) == (
            MonitorPhase::Connecting,
            true,
            MonitorAction::Call(ServiceCall::Connect(cfg.connect)),
        ),
{
}

/// Law (decision table): with the token available and dry-run off, observing
/// Disabled dispatches exactly one Enable(true), holding the token.
pub proof fn lemma_disabled_dispatches_enable(cfg: SupervisorConfig)
    requires
        !cfg.dry_run,
    ensures
        spec_step(
            cfg,
            MonitorPhase::Watching,
            false,
            MonitorEvent::Observed(Some(ModemState::Disabled)),
        ) == (MonitorPhase::Enabling, true, MonitorAction::Call(ServiceCall::Enable(true))),
{
}

/// Law (decision table): observing any state other than Registered or
/// Disabled — Connected included — dispatches no service call, leaves the
/// token as it was and keeps the monitor watching.
pub proof fn lemma_quiet_states_dispatch_nothing(
    cfg: SupervisorConfig,
    held: bool,
    observed: Option<ModemState>,
)
    requires
        observed != Some(ModemState::Registered),
        observed != Some(ModemState::Disabled),
    ensures
        ({
            let (next_phase, held_after, action) = spec_step(
                cfg,
                MonitorPhase::Watching,
                held,
                MonitorEvent::Observed(observed),
            );
            &&& !(action is Call)
            &&& next_phase is Watching
            &&& held_after == held
        }),
{
}

/// Law: with the token already held, a monitor whose observation calls for a
/// corrective action skips at once — the trigger is dropped, not queued: the
/// monitor stays watching and the token is untouched.
pub proof fn lemma_busy_trigger_is_skipped(cfg: SupervisorConfig, observed: Option<ModemState>)
    requires
        !cfg.dry_run,
        observed == Some(ModemState::Registered) || observed == Some(ModemState::Disabled),
    ensures
        spec_step(cfg, MonitorPhase::Watching, true, MonitorEvent::Observed(observed)) == (
            MonitorPhase::Watching,
            true,
            MonitorAction::SkipBusy,
        ),
{
}

/// Law: from a guarded phase, a step either continues the action with the
/// token still held, or ends it — completed or fatal — with the token
/// available again for the next acquisition attempt, on success and on
/// failure alike.
pub proof fn lemma_completion_releases_token(
    cfg: SupervisorConfig,
    phase: MonitorPhase,
    event: MonitorEvent,
)
    requires
        phase is Connecting || phase is ReportingSignal || phase is Enabling,
        event is CallOk || event is CallFailed,
    ensures
        ({
            let (next_phase, held_after, action) = spec_step(cfg, phase, true, event);
            &&& action is Completed || action is Fatal || action is Call
            &&& (action is Completed || action is Fatal) <==> !held_after
            &&& (action is Completed || action is Fatal) ==> next_phase is Watching
        }),
{
}

/// Law: when both monitors are triggered by the same underlying transition,
/// exactly one dispatches the corrective call; the other skips as busy.
pub proof fn lemma_simultaneous_triggers_collapse(
    cfg: SupervisorConfig,
    observed: Option<ModemState>,
)
    requires
        !cfg.dry_run,
        observed == Some(ModemState::Registered) || observed == Some(ModemState::Disabled),
    ensures
        ({
            let (phase_one, held_one, first) = spec_step(
                cfg,
                MonitorPhase::Watching,
                false,
                MonitorEvent::Observed(observed),
            );
            let (phase_two, held_two, second) = spec_step(
                cfg,
                MonitorPhase::Watching,
                held_one,
                MonitorEvent::Observed(observed),
            );
            &&& first is Call
            &&& second == MonitorAction::SkipBusy
        }),
{
}

/// Law: with dry-run on, no observation dispatches a service call or touches
/// the token.
pub proof fn lemma_dry_run_suppresses_calls(
    cfg: SupervisorConfig,
    held: bool,
    observed: Option<ModemState>,
)
    requires
        cfg.dry_run,
    ensures
        ({
            let (next_phase, held_after, action) = spec_step(
                cfg,
                MonitorPhase::Watching,
                held,
                MonitorEvent::Observed(observed),
            );
            &&& !(action is Call)
            &&& next_phase is Watching
            &&& held_after == held
        }),
{
}

} // verus!
