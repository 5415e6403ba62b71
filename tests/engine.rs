use vm_backup::{Action, BackupRun, Event, FailReason, Limits, Phase, VirtualMachineState};

fn run() -> BackupRun {
    BackupRun::new(
        "web".to_string(),
        "/b/img/web-20240105.qcow2".to_string(),
        "/b/xml/web-20240105.xml".to_string(),
        Limits::standard(),
    )
}

fn power(s: VirtualMachineState) -> Event {
    Event::Power { state: s }
}

fn stopped_run() -> BackupRun {
    let mut r = run();
    r.step(Event::Begin);
    r.step(Event::Exported { ok: true });
    match r.step(power(VirtualMachineState::ShutOff)) {
        Action::LocateDisk { domain } => assert_eq!(domain, "web"),
        _ => panic!("expected a disk lookup"),
    }
    r
}

#[test]
fn standard_limits() {
    let l = Limits::standard();
    assert_eq!(l.shutdown_polls, 30);
    assert_eq!(l.shutdown_interval_secs, 10);
    assert_eq!(l.restart_polls, 12);
    assert_eq!(l.min_artifact_bytes, 1024 * 1024);
}

#[test]
fn full_backup_completes_and_registers() {
    let mut r = run();
    match r.step(Event::Begin) {
        Action::ExportConfig { domain, dest } => {
            assert_eq!(domain, "web");
            assert_eq!(dest, "/b/xml/web-20240105.xml");
        }
        _ => panic!("expected an export"),
    }
    match r.step(Event::Exported { ok: true }) {
        Action::GracefulStop { wait_secs, .. } => assert_eq!(wait_secs, 10),
        _ => panic!("expected a graceful stop"),
    }
    match r.step(power(VirtualMachineState::Running)) {
        Action::PollPower { .. } => {}
        _ => panic!("expected a poll"),
    }
    assert!(matches!(r.step(power(VirtualMachineState::ShutOff)), Action::LocateDisk { .. }));
    match r.step(Event::Located { path: Some("/srv/web.qcow2".to_string()) }) {
        Action::CopyImage { source, dest } => {
            assert_eq!(source, "/srv/web.qcow2");
            assert_eq!(dest, "/b/img/web-20240105.qcow2");
        }
        _ => panic!("expected a copy"),
    }
    assert!(matches!(r.step(Event::Copied { ok: true }), Action::MeasureArtifact { .. }));
    assert!(matches!(r.step(Event::Measured { bytes: 20 * 1024 * 1024 }), Action::Start { .. }));
    match r.step(power(VirtualMachineState::Running)) {
        Action::Register { domain, image, config } => {
            assert_eq!(domain, "web");
            assert_eq!(image, "/b/img/web-20240105.qcow2");
            assert_eq!(config, "/b/xml/web-20240105.xml");
        }
        _ => panic!("expected a registration"),
    }
    assert!(matches!(r.step(Event::Registered), Action::Finish { phase: Phase::Completed }));
    assert!(r.registered && r.validated && r.copy_requested);
    assert!(r.is_done());
    assert!(r.restart_confirmed);
}

#[test]
fn export_failure_leaves_domain_untouched() {
    let mut r = run();
    r.step(Event::Begin);
    let a = r.step(Event::Exported { ok: false });
    assert!(matches!(a, Action::Finish { phase: Phase::Failed(FailReason::ConfigExportFailed) }));
    assert!(!r.stop_requested);
}

#[test]
fn shutdown_escalates_to_forced_stop_then_times_out() {
    let mut r = run();
    r.step(Event::Begin);
    r.step(Event::Exported { ok: true });
    // The answer to the stop request is the first of thirty observations.
    for _ in 0..29 {
        assert!(matches!(r.step(power(VirtualMachineState::Running)), Action::PollPower { wait_secs: 10, .. }));
    }
    assert!(matches!(r.step(power(VirtualMachineState::Running)), Action::ForcedStop { wait_secs: 5, .. }));
    for _ in 0..11 {
        assert!(matches!(r.step(power(VirtualMachineState::Running)), Action::PollPower { wait_secs: 5, .. }));
    }
    let a = r.step(power(VirtualMachineState::Running));
    assert!(matches!(a, Action::Finish { phase: Phase::Failed(FailReason::ShutdownTimeout) }));
}

#[test]
fn forced_stop_that_succeeds_goes_on_to_copy() {
    let mut r = run();
    r.step(Event::Begin);
    r.step(Event::Exported { ok: true });
    for _ in 0..29 {
        r.step(power(VirtualMachineState::Shutdown));
    }
    assert!(matches!(r.step(power(VirtualMachineState::Running)), Action::ForcedStop { .. }));
    assert!(matches!(r.step(power(VirtualMachineState::ShutOff)), Action::LocateDisk { .. }));
}

#[test]
fn missing_source_restarts_the_domain() {
    let mut r = stopped_run();
    assert!(matches!(r.step(Event::Located { path: None }), Action::Start { .. }));
    let a = r.step(power(VirtualMachineState::Running));
    assert!(matches!(a, Action::Finish { phase: Phase::Failed(FailReason::SourceMissing) }));
}

#[test]
fn copy_error_restarts_the_domain() {
    let mut r = stopped_run();
    r.step(Event::Located { path: Some("/srv/web.qcow2".to_string()) });
    assert!(matches!(r.step(Event::Copied { ok: false }), Action::Start { .. }));
    let a = r.step(power(VirtualMachineState::Running));
    assert!(matches!(a, Action::Finish { phase: Phase::Failed(FailReason::CopyError) }));
}

#[test]
fn small_artifact_is_deleted_with_its_config_and_never_registered() {
    let mut r = stopped_run();
    r.step(Event::Located { path: Some("/srv/web.qcow2".to_string()) });
    r.step(Event::Copied { ok: true });
    match r.step(Event::Measured { bytes: 1024 * 1024 - 1 }) {
        Action::DeleteArtifacts { image, config } => {
            assert_eq!(image, "/b/img/web-20240105.qcow2");
            assert_eq!(config, "/b/xml/web-20240105.xml");
        }
        _ => panic!("expected a deletion"),
    }
    assert!(matches!(r.step(Event::Deleted), Action::Start { .. }));
    let a = r.step(power(VirtualMachineState::Running));
    assert!(matches!(a, Action::Finish { phase: Phase::Failed(FailReason::ArtifactTooSmall) }));
    assert!(!r.validated);
}

#[test]
fn artifact_of_exactly_the_minimum_is_kept() {
    let mut r = stopped_run();
    r.step(Event::Located { path: Some("/srv/web.qcow2".to_string()) });
    r.step(Event::Copied { ok: true });
    assert!(matches!(r.step(Event::Measured { bytes: 1024 * 1024 }), Action::Start { .. }));
    assert!(r.validated);
}

#[test]
fn restart_timeout_still_registers_a_valid_backup() {
    let mut r = stopped_run();
    r.step(Event::Located { path: Some("/srv/web.qcow2".to_string()) });
    r.step(Event::Copied { ok: true });
    r.step(Event::Measured { bytes: 5 * 1024 * 1024 });
    for _ in 0..11 {
        assert!(matches!(r.step(power(VirtualMachineState::ShutOff)), Action::PollPower { .. }));
    }
    assert!(matches!(r.step(power(VirtualMachineState::ShutOff)), Action::Register { .. }));
    let a = r.step(Event::Registered);
    assert!(matches!(a, Action::Finish { phase: Phase::Failed(FailReason::RestartTimeout) }));
    assert!(r.registered);
}

#[test]
fn shutdown_timeout_never_requests_a_copy() {
    let mut r = run();
    r.step(Event::Begin);
    r.step(Event::Exported { ok: true });
    for _ in 0..41 {
        r.step(power(VirtualMachineState::Running));
    }
    assert!(!r.is_done());
    r.step(power(VirtualMachineState::Running));
    assert_eq!(r.phase, Phase::Failed(FailReason::ShutdownTimeout));
    assert!(!r.copy_requested);
}

#[test]
fn unexpected_event_is_not_accepted() {
    let r = run();
    assert!(r.accepts(&Event::Begin));
    assert!(!r.accepts(&Event::Registered));
    assert!(!r.is_done());
}

#[test]
fn cancel_while_stopping_still_restarts() {
    let mut r = run();
    r.step(Event::Begin);
    r.step(Event::Exported { ok: true });
    assert!(r.accepts(&Event::Cancel));
    assert!(matches!(r.step(Event::Cancel), Action::Start { wait_secs: 5, .. }));
    let a = r.step(power(VirtualMachineState::Running));
    assert!(matches!(a, Action::Finish { phase: Phase::Failed(FailReason::Cancelled) }));
    assert!(r.restart_confirmed);
}

#[test]
fn cancel_while_awaiting_restart_is_reported_as_restart_timeout() {
    let mut r = stopped_run();
    assert!(!r.accepts(&Event::Cancel));
    r.step(Event::Located { path: None });
    let a = r.step(Event::Cancel);
    assert!(matches!(a, Action::Finish { phase: Phase::Failed(FailReason::RestartTimeout) }));
}
