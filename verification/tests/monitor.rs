use modem_supervisor::arbiter::Arbiter;
use modem_supervisor::codec::{ModemState, StateChangedArgs};
use modem_supervisor::monitor::{
    poll_event, signal_event, step, ConnectParams, MonitorAction, MonitorEvent, MonitorPhase,
    ServiceCall, SupervisorConfig,
};
use modem_supervisor::snapshot::{PropertyValue, StatusSnapshot};

fn deployment_params() -> ConnectParams {
    ConnectParams {
        apn: "giffgaff.com".to_owned(),
        user: "gg".to_owned(),
        password: "p".to_owned(),
        allowed_auth: "pap".to_owned(),
    }
}

#[test]
fn registered_dispatches_exactly_one_connect() {
    let cfg = SupervisorConfig::defaults();
    let mut arbiter = Arbiter::new();
    let (phase, action) = step(
        &cfg,
        MonitorPhase::Watching,
        &mut arbiter,
        MonitorEvent::Observed(Some(ModemState::Registered)),
    );
    assert_eq!(phase, MonitorPhase::Connecting);
    assert_eq!(
        action,
        MonitorAction::Call(ServiceCall::Connect(deployment_params()))
    );
}

#[test]
fn disabled_dispatches_exactly_one_enable() {
    let cfg = SupervisorConfig::defaults();
    let mut arbiter = Arbiter::new();
    let (phase, action) = step(
        &cfg,
        MonitorPhase::Watching,
        &mut arbiter,
        MonitorEvent::Observed(Some(ModemState::Disabled)),
    );
    assert_eq!(phase, MonitorPhase::Enabling);
    assert_eq!(action, MonitorAction::Call(ServiceCall::Enable(true)));
}

#[test]
fn connected_makes_zero_mutating_calls() {
    let cfg = SupervisorConfig::defaults();
    let mut arbiter = Arbiter::new();
    let (phase, action) = step(
        &cfg,
        MonitorPhase::Watching,
        &mut arbiter,
        MonitorEvent::Observed(Some(ModemState::Connected)),
    );
    assert_eq!(phase, MonitorPhase::Watching);
    assert_eq!(action, MonitorAction::NoteConnected);
    // The token was never taken: it is still granted on request.
    let (_, next) = step(
        &cfg,
        MonitorPhase::Watching,
        &mut arbiter,
        MonitorEvent::Observed(Some(ModemState::Registered)),
    );
    assert!(matches!(next, MonitorAction::Call(_)));
}

#[test]
fn other_known_states_are_only_observed() {
    let cfg = SupervisorConfig::defaults();
    for state in [
        ModemState::Failed,
        ModemState::Unknown,
        ModemState::Initializing,
        ModemState::Locked,
        ModemState::Disabling,
        ModemState::Enabling,
        ModemState::Enabled,
        ModemState::Searching,
        ModemState::Disconnecting,
        ModemState::Connecting,
    ] {
        let mut arbiter = Arbiter::new();
        let (phase, action) = step(
            &cfg,
            MonitorPhase::Watching,
            &mut arbiter,
            MonitorEvent::Observed(Some(state)),
        );
        assert_eq!(phase, MonitorPhase::Watching);
        assert_eq!(action, MonitorAction::Observe);
    }
}

#[test]
fn absent_state_warns_and_takes_no_action() {
    let cfg = SupervisorConfig::defaults();
    let mut arbiter = Arbiter::new();
    let (phase, action) = step(
        &cfg,
        MonitorPhase::Watching,
        &mut arbiter,
        MonitorEvent::Observed(None),
    );
    assert_eq!(phase, MonitorPhase::Watching);
    assert_eq!(action, MonitorAction::WarnNoState);
}

#[test]
fn busy_token_skips_the_action_without_queueing() {
    let cfg = SupervisorConfig::defaults();
    let mut arbiter = Arbiter::new();
    let (_, first) = step(
        &cfg,
        MonitorPhase::Watching,
        &mut arbiter,
        MonitorEvent::Observed(Some(ModemState::Registered)),
    );
    assert!(matches!(first, MonitorAction::Call(_)));
    let (phase, second) = step(
        &cfg,
        MonitorPhase::Watching,
        &mut arbiter,
        MonitorEvent::Observed(Some(ModemState::Registered)),
    );
    assert_eq!(second, MonitorAction::SkipBusy);
    // Nothing was queued: the skipping monitor is still just watching.
    assert_eq!(phase, MonitorPhase::Watching);
}

#[test]
fn token_is_available_after_success_and_after_failure() {
    let cfg = SupervisorConfig::defaults();

    // Success path: Connect, then signal reporting, then done.
    let mut arbiter = Arbiter::new();
    let (phase, _) = step(
        &cfg,
        MonitorPhase::Watching,
        &mut arbiter,
        MonitorEvent::Observed(Some(ModemState::Registered)),
    );
    let (phase, _) = step(&cfg, phase, &mut arbiter, MonitorEvent::CallOk);
    let (phase, done) = step(&cfg, phase, &mut arbiter, MonitorEvent::CallOk);
    assert_eq!(done, MonitorAction::Completed);
    assert_eq!(phase, MonitorPhase::Watching);
    let (_, retry) = step(
        &cfg,
        MonitorPhase::Watching,
        &mut arbiter,
        MonitorEvent::Observed(Some(ModemState::Registered)),
    );
    assert!(matches!(retry, MonitorAction::Call(_)));

    // Failure path: the Connect call fails; the token must come back too.
    let mut arbiter = Arbiter::new();
    let (phase, _) = step(
        &cfg,
        MonitorPhase::Watching,
        &mut arbiter,
        MonitorEvent::Observed(Some(ModemState::Registered)),
    );
    let (phase, outcome) = step(&cfg, phase, &mut arbiter, MonitorEvent::CallFailed);
    assert_eq!(outcome, MonitorAction::Fatal);
    assert_eq!(phase, MonitorPhase::Watching);
    let (_, retry) = step(
        &cfg,
        MonitorPhase::Watching,
        &mut arbiter,
        MonitorEvent::Observed(Some(ModemState::Registered)),
    );
    assert!(matches!(retry, MonitorAction::Call(_)));
}

#[test]
fn poll_scenario_registered_connects_then_reports_signal() {
    let cfg = SupervisorConfig::defaults();
    let mut arbiter = Arbiter::new();

    let mut status = StatusSnapshot::new();
    status.push("state".to_owned(), PropertyValue::Number(8));
    let event = poll_event(&status);
    assert_eq!(event, MonitorEvent::Observed(Some(ModemState::Registered)));

    let (phase, action) = step(&cfg, MonitorPhase::Watching, &mut arbiter, event);
    assert_eq!(
        action,
        MonitorAction::Call(ServiceCall::Connect(deployment_params()))
    );

    let (phase, action) = step(&cfg, phase, &mut arbiter, MonitorEvent::CallOk);
    assert_eq!(
        action,
        MonitorAction::Call(ServiceCall::SetupSignalReporting(5))
    );

    let (_, action) = step(&cfg, phase, &mut arbiter, MonitorEvent::CallOk);
    assert_eq!(action, MonitorAction::Completed);
}

#[test]
fn event_scenario_signal_triggers_the_same_connect() {
    let cfg = SupervisorConfig::defaults();
    let mut arbiter = Arbiter::new();

    let args = StateChangedArgs {
        old: 9,
        new: 8,
        reason: 1,
    };
    let event = signal_event(&args).expect("a decodable signal");
    assert_eq!(event, MonitorEvent::Observed(Some(ModemState::Registered)));

    let (_, action) = step(&cfg, MonitorPhase::Watching, &mut arbiter, event);
    assert_eq!(
        action,
        MonitorAction::Call(ServiceCall::Connect(deployment_params()))
    );
}

#[test]
fn simultaneous_triggers_yield_one_connect() {
    let cfg = SupervisorConfig::defaults();
    let mut arbiter = Arbiter::new();

    // Both monitors observe the same transition to Registered; the shared
    // arbiter serializes their acquisition attempts.
    let mut status = StatusSnapshot::new();
    status.push("state".to_owned(), PropertyValue::Number(8));
    let poll = poll_event(&status);
    let signal = signal_event(&StateChangedArgs {
        old: 9,
        new: 8,
        reason: 1,
    })
    .expect("a decodable signal");

    let (_, first) = step(&cfg, MonitorPhase::Watching, &mut arbiter, poll);
    let (_, second) = step(&cfg, MonitorPhase::Watching, &mut arbiter, signal);

    assert_eq!(
        first,
        MonitorAction::Call(ServiceCall::Connect(deployment_params()))
    );
    assert_eq!(second, MonitorAction::SkipBusy);
}

#[test]
fn dry_run_prevents_mutating_calls() {
    let mut cfg = SupervisorConfig::defaults();
    cfg.dry_run = true;
    let mut arbiter = Arbiter::new();

    let (phase, action) = step(
        &cfg,
        MonitorPhase::Watching,
        &mut arbiter,
        MonitorEvent::Observed(Some(ModemState::Registered)),
    );
    assert_eq!(phase, MonitorPhase::Watching);
    assert_eq!(action, MonitorAction::SuppressedDryRun);

    let (_, action) = step(
        &cfg,
        MonitorPhase::Watching,
        &mut arbiter,
        MonitorEvent::Observed(Some(ModemState::Disabled)),
    );
    assert_eq!(action, MonitorAction::SuppressedDryRun);
}

#[test]
fn defaults_match_the_documented_configuration() {
    let cfg = SupervisorConfig::defaults();
    assert!(!cfg.dry_run);
    assert_eq!(cfg.check_interval_secs, 60);
    assert_eq!(cfg.signal_refresh_rate, 5);
    assert_eq!(cfg.connect, deployment_params());
}

#[test]
fn undecodable_signal_is_terminal_for_the_event_monitor() {
    let args = StateChangedArgs {
        old: 9,
        new: 42,
        reason: 1,
    };
    assert!(signal_event(&args).is_err());
}
