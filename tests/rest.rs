use vm_backup::{VirtualMachineState, 
    artifact_file_name, begin_backup, catalog_entry, left_down, list, deletion_paths, exit_code, expired_pairs, find, latest, list_for_domain,
    parse_artifact_file_name, plan_batch, ArtifactPair, BatchError, BeginError, CapacityReport, CivilDate,
    DiskLocator, Limits, RestoreAction, RestoreEvent, RestorePhase, RestoreRun, RestoreStep, RunRegistry, Settings,
};

fn date(y: u32, m: u32, d: u32) -> CivilDate {
    CivilDate::from_ymd(y, m, d).unwrap()
}

fn pair(domain: &str, d: CivilDate) -> ArtifactPair {
    ArtifactPair {
        domain: domain.to_string(),
        date: d,
        image_path: format!("/b/img/{}-{}.qcow2", domain, d.stamp()),
        config_path: format!("/b/xml/{}-{}.xml", domain, d.stamp()),
    }
}

fn settings() -> Settings {
    Settings {
        image_root: "/var/lib/libvirt/images".to_string(),
        config_root: "/etc/libvirt/qemu".to_string(),
        backup_image_dir: "/b/img".to_string(),
        backup_config_dir: "/b/xml".to_string(),
        image_ext: "qcow2".to_string(),
        retention_days: 365,
        retention_overrides: vec![("scratch".to_string(), 7)],
        limits: Limits::standard(),
    }
}

#[test]
fn day_numbers_follow_the_calendar() {
    assert_eq!(date(1970, 1, 1).ordinal, 719_163);
    assert_eq!(date(1, 1, 1).ordinal, 1);
    assert_eq!(date(2024, 3, 1).ordinal - date(2024, 2, 28).ordinal, 2);
    assert!(CivilDate::from_ymd(2023, 2, 29).is_none());
    assert!(CivilDate::from_ymd(2024, 13, 1).is_none());
    assert_eq!(date(2024, 1, 1).days_until(&date(2025, 1, 1)), 366);
}

#[test]
fn stamp_is_zero_padded() {
    assert_eq!(date(2024, 2, 9).stamp(), "20240209");
    assert_eq!(date(987, 12, 31).stamp(), "09871231");
}

#[test]
fn artifact_names_round_trip() {
    let d = date(2024, 1, 5);
    let name = artifact_file_name("my-vm", &d, "qcow2");
    assert_eq!(name, "my-vm-20240105.qcow2");
    let (domain, parsed) = parse_artifact_file_name(&name, "qcow2").unwrap();
    assert_eq!(domain, "my-vm");
    assert_eq!(parsed, d);
}

#[test]
fn malformed_artifact_names_are_skipped() {
    assert!(parse_artifact_file_name("web-20240105.xml", "qcow2").is_none());
    assert!(parse_artifact_file_name("web-2024015.qcow2", "qcow2").is_none());
    assert!(parse_artifact_file_name("web-2024a105.qcow2", "qcow2").is_none());
    assert!(parse_artifact_file_name("-20240105.qcow2", "qcow2").is_none());
    assert!(parse_artifact_file_name("web_20240105.qcow2", "qcow2").is_none());
    assert!(parse_artifact_file_name("web-20230229.qcow2", "qcow2").is_none());
    assert!(parse_artifact_file_name("web-00000101.qcow2", "qcow2").is_none());
}

#[test]
fn retention_deletes_only_artifacts_older_than_the_window() {
    let today = date(2024, 6, 30);
    let d200 = date(2023, 12, 13);
    let d400 = date(2023, 5, 27);
    assert_eq!(d200.days_until(&today), 200);
    assert_eq!(d400.days_until(&today), 400);
    let pairs = vec![pair("web", today), pair("web", d200), pair("web", d400), pair("db", d400)];
    let old = expired_pairs(&pairs, "web", &today, 365);
    assert_eq!(old.len(), 1);
    assert_eq!(old[0].date, d400);
    assert_eq!(old[0].domain, "web");
    let d365 = date(2023, 7, 1);
    let d366 = date(2023, 6, 30);
    assert_eq!(d365.days_until(&today), 365);
    let edge = vec![pair("web", d365), pair("web", d366)];
    let gone = expired_pairs(&edge, "web", &today, 365);
    assert_eq!(gone.len(), 1);
    assert_eq!(gone[0].date, d366);
    let paths = deletion_paths(&old);
    assert_eq!(paths, vec![old[0].image_path.clone(), old[0].config_path.clone()]);
}

#[test]
fn catalog_lookups() {
    let pairs = vec![pair("web", date(2024, 1, 5)), pair("db", date(2024, 3, 1)), pair("web", date(2024, 2, 1))];
    assert_eq!(list_for_domain(&pairs, "web").len(), 2);
    assert_eq!(latest(&pairs, "web").unwrap().date, date(2024, 2, 1));
    assert!(latest(&pairs, "mail").is_none());
    assert_eq!(find(&pairs, "db", date(2024, 3, 1).ordinal).unwrap().domain, "db");
    assert!(find(&pairs, "db", date(2024, 3, 2).ordinal).is_none());
}

#[test]
fn capacity_sums_located_images_only() {
    let r = CapacityReport::plan(&vec![Some(100), None, Some(50)], 200);
    assert_eq!(r.required_bytes, 150);
    assert_eq!(r.available_bytes, 200);
    assert!(r.is_sufficient());
    let huge = CapacityReport::plan(&vec![Some(u64::MAX), Some(1)], 10);
    assert_eq!(huge.required_bytes, u64::MAX);
    assert!(!huge.is_sufficient());
}

#[test]
fn insufficient_space_refuses_the_whole_batch() {
    let report = CapacityReport::plan(&vec![Some(300), Some(300)], 500);
    let r = plan_batch(vec!["a".to_string(), "b".to_string()], &report);
    assert_eq!(r, Err(BatchError::InsufficientSpace { required_bytes: 600, available_bytes: 500 }));
    let ok = CapacityReport::plan(&vec![Some(250), Some(250)], 500);
    assert_eq!(plan_batch(vec!["a".to_string()], &ok), Ok(vec!["a".to_string()]));
}

#[test]
fn locator_prefers_the_conventional_path() {
    let conv = DiskLocator::conventional_path("/var/lib/libvirt/images", "web", "qcow2");
    assert_eq!(conv, "/var/lib/libvirt/images/web.qcow2");
    let src = Some("/srv/web.img".to_string());
    assert_eq!(DiskLocator::locate(&conv, true, &src, true), Some(conv.clone()));
    assert_eq!(DiskLocator::locate(&conv, false, &src, true), src);
    assert_eq!(DiskLocator::locate(&conv, false, &src, false), None);
    assert_eq!(DiskLocator::locate(&conv, false, &None, true), None);
    assert_eq!(DiskLocator::locate(&conv, false, &src, true), DiskLocator::locate(&conv, false, &src, true));
}

#[test]
fn second_run_on_the_same_domain_is_refused() {
    let s = settings();
    let mut reg = RunRegistry::new();
    let today = date(2024, 1, 5);
    let run = begin_backup(&s, &mut reg, &vec![], "web".to_string(), &today).unwrap();
    assert_eq!(run.image_dest, "/b/img/web-20240105.qcow2");
    assert_eq!(run.config_dest, "/b/xml/web-20240105.xml");
    assert!(reg.is_active("web"));
    let again = begin_backup(&s, &mut reg, &vec![], "web".to_string(), &today);
    assert_eq!(again.err(), Some(BeginError::AlreadyInProgress));
    assert!(begin_backup(&s, &mut reg, &vec![], "db".to_string(), &today).is_ok());
    reg.release("web");
    assert!(!reg.is_active("web"));
    assert!(reg.is_active("db"));
}

#[test]
fn second_backup_on_the_same_day_is_refused() {
    let s = settings();
    let mut reg = RunRegistry::new();
    let today = date(2024, 1, 5);
    let r = begin_backup(&s, &mut reg, &vec![pair("web", today)], "web".to_string(), &today);
    assert_eq!(r.err(), Some(BeginError::AlreadyBackedUpToday));
    assert!(!reg.is_active("web"));
}

#[test]
fn registry_refuses_a_held_name() {
    let mut reg = RunRegistry::new();
    assert!(reg.try_acquire("web".to_string()).is_ok());
    assert!(reg.try_acquire("web".to_string()).is_err());
}

#[test]
fn exit_codes() {
    assert_eq!(exit_code(true, 0), 2);
    assert_eq!(exit_code(false, 3), 1);
    assert_eq!(exit_code(false, 0), 0);
}

#[test]
fn restore_copies_then_imports_then_starts() {
    let p = pair("web", date(2024, 1, 5));
    let mut r = RestoreRun::new(&p, "/var/lib/libvirt/images/web.qcow2".to_string(), true, true, Limits::standard());
    assert!(matches!(r.step(RestoreEvent::Begin), RestoreAction::GracefulStop { wait_secs: 10, .. }));
    assert!(matches!(r.step(RestoreEvent::Power { state: VirtualMachineState::ShutOff }), RestoreAction::Undefine { .. }));
    match r.step(RestoreEvent::Done { ok: true }) {
        RestoreAction::CopyImage { source, dest } => {
            assert_eq!(source, p.image_path);
            assert_eq!(dest, "/var/lib/libvirt/images/web.qcow2");
        }
        _ => panic!("expected a copy"),
    }
    match r.step(RestoreEvent::Done { ok: true }) {
        RestoreAction::ImportConfig { path } => assert_eq!(path, p.config_path),
        _ => panic!("expected an import"),
    }
    assert!(matches!(r.step(RestoreEvent::Done { ok: true }), RestoreAction::StartDomain { .. }));
    assert!(matches!(r.step(RestoreEvent::Done { ok: true }), RestoreAction::Finish { phase: RestorePhase::Restored }));
}

#[test]
fn restore_forces_a_stop_only_after_the_shutdown_bound() {
    let p = pair("web", date(2024, 1, 5));
    let mut r = RestoreRun::new(&p, "/img/web.qcow2".to_string(), true, false, Limits::standard());
    r.step(RestoreEvent::Begin);
    for _ in 0..29 {
        assert!(matches!(r.step(RestoreEvent::Power { state: VirtualMachineState::Running }), RestoreAction::PollPower { wait_secs: 10, .. }));
    }
    assert!(matches!(r.step(RestoreEvent::Power { state: VirtualMachineState::Running }), RestoreAction::ForcedStop { wait_secs: 5, .. }));
    for _ in 0..11 {
        assert!(matches!(r.step(RestoreEvent::Power { state: VirtualMachineState::Running }), RestoreAction::PollPower { wait_secs: 5, .. }));
    }
    let a = r.step(RestoreEvent::Power { state: VirtualMachineState::Running });
    assert!(matches!(a, RestoreAction::Finish { phase: RestorePhase::Failed(RestoreStep::Stop) }));
    assert!(!r.image_copied);
}

#[test]
fn restore_goes_on_once_the_domain_is_off() {
    let p = pair("web", date(2024, 1, 5));
    let mut r = RestoreRun::new(&p, "/img/web.qcow2".to_string(), true, false, Limits::standard());
    r.step(RestoreEvent::Begin);
    r.step(RestoreEvent::Power { state: VirtualMachineState::Running });
    assert!(matches!(r.step(RestoreEvent::Power { state: VirtualMachineState::ShutOff }), RestoreAction::CopyImage { .. }));
}

#[test]
fn catalog_entries_need_a_valid_name_and_a_config() {
    let configs = vec!["web-20240105.xml".to_string(), "junk.txt".to_string()];
    let e = catalog_entry("/b/img", "/b/xml", "web-20240105.qcow2", "qcow2", &configs).unwrap();
    assert_eq!(e.domain, "web");
    assert_eq!(e.date, date(2024, 1, 5));
    assert_eq!(e.image_path, "/b/img/web-20240105.qcow2");
    assert_eq!(e.config_path, "/b/xml/web-20240105.xml");
    assert!(catalog_entry("/b/img", "/b/xml", "web-20240106.qcow2", "qcow2", &configs).is_none());
    assert!(catalog_entry("/b/img", "/b/xml", "web.qcow2", "qcow2", &configs).is_none());
}

#[test]
fn failed_copy_never_imports() {
    let p = pair("web", date(2024, 1, 5));
    let mut r = RestoreRun::new(&p, "/img/web.qcow2".to_string(), false, false, Limits::standard());
    assert!(matches!(r.step(RestoreEvent::Begin), RestoreAction::CopyImage { .. }));
    let a = r.step(RestoreEvent::Done { ok: false });
    assert!(matches!(a, RestoreAction::Finish { phase: RestorePhase::Failed(RestoreStep::Copy) }));
    assert!(!r.image_copied);
    assert!(!r.accepts(&RestoreEvent::Done { ok: true }));
}

#[test]
fn catalog_list_is_oldest_first() {
    let pairs = vec![
        pair("web", date(2024, 3, 5)),
        pair("db", date(2020, 1, 1)),
        pair("web", date(2023, 12, 31)),
        pair("web", date(2024, 1, 20)),
    ];
    let l = list(&pairs, "web");
    let days: Vec<i32> = l.iter().map(|p| p.date.ordinal).collect();
    assert_eq!(days, vec![date(2023, 12, 31).ordinal, date(2024, 1, 20).ordinal, date(2024, 3, 5).ordinal]);
    assert!(list(&pairs, "mail").is_empty());
}

#[test]
fn retention_override_per_domain() {
    let s = settings();
    assert_eq!(s.retention_days_for("scratch"), 7);
    assert_eq!(s.retention_days_for("web"), 365);
}

#[test]
fn alert_only_for_a_domain_that_was_running() {
    assert!(left_down(VirtualMachineState::Running, VirtualMachineState::ShutOff));
    assert!(!left_down(VirtualMachineState::Running, VirtualMachineState::Running));
    assert!(!left_down(VirtualMachineState::ShutOff, VirtualMachineState::ShutOff));
}
