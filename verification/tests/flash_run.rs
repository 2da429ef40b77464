use ltbox_gui::device::ConnectionStatus;
use ltbox_gui::flash::{ArbLocationStep, DeviceRegion, KeyClass, KeyLookup, PreEdlAbort, RollbackMode};
use ltbox_gui::flash_run::{
    country_target, flash_start, flash_step, write_plan_of, CountryTarget, DeviceKey, FirmwareFacts, FlashAction,
    FlashConfig, FlashError, FlashEvent, FlashOutcome, FlashRun, FlashStage, LocationFacts,
    PatchOutcome, RegionBuild, StopRecovery,
};
use ltbox_gui::model::EdlProbeError;
use ltbox_gui::writes::{WriteAbort, WriteStep};

fn cfg(conn: ConnectionStatus, mode: RollbackMode) -> FlashConfig {
    FlashConfig {
        conn,
        mode,
        modify_region: false,
        wipe: false,
        country: CountryTarget::NoTarget,
        device_region: None,
        rollback_protected_model: true,
    }
}

fn facts(key: KeyClass) -> FirmwareFacts {
    FirmwareFacts {
        model_mismatch: false,
        target_is_tb323fu: false,
        tb323fu_skip_region: false,
        firmware_key: key,
        has_vendor_boot: true,
        has_vbmeta: true,
    }
}

fn drive(mut s: FlashRun, events: &[FlashEvent]) -> (FlashRun, Vec<FlashAction>) {
    let mut actions = Vec::new();
    for e in events {
        let (t, a) = flash_step(&s, *e);
        actions.push(a);
        s = t;
    }
    (s, actions)
}

fn to_session(conn: ConnectionStatus, mode: RollbackMode, key: KeyClass) -> FlashRun {
    let (s, a) = flash_start(cfg(conn, mode));
    assert_eq!(a, FlashAction::ProbeFastboot);
    let (s, acts) = drive(
        s,
        &[
            FlashEvent::FastbootProbed { reachable: true, device_index: Some(3) },
            FlashEvent::FirmwareInspected(facts(key)),
            FlashEvent::XmlDecrypted { ok: true, loader_found: true },
            FlashEvent::EdlEntered { ok: true },
            FlashEvent::SessionOpened { ok: true },
        ],
    );
    assert_eq!(
        acts,
        vec![
            FlashAction::InspectFirmware,
            FlashAction::DecryptXml,
            FlashAction::EnterEdl,
            FlashAction::OpenSession,
            FlashAction::CollectXmls,
        ]
    );
    s
}

#[test]
fn flash_run_adb_start_bridges_once_then_inspects() {
    let (s, _) = flash_start(cfg(ConnectionStatus::Adb, RollbackMode::Auto));
    let (s, a) = flash_step(&s, FlashEvent::FastbootProbed { reachable: false, device_index: None });
    assert_eq!(a, FlashAction::BridgeAdbToBootloader);
    let (s, a) = flash_step(&s, FlashEvent::FastbootProbed { reachable: false, device_index: None });
    assert_eq!(a, FlashAction::InspectFirmware);
    assert!(!s.fastboot_reachable);
}

#[test]
fn flash_run_rollback_on_unreachable_reboots_over_adb() {
    let (s, _) = flash_start(cfg(ConnectionStatus::Adb, RollbackMode::On));
    let (_, acts) = drive(
        s,
        &[
            FlashEvent::FastbootProbed { reachable: false, device_index: None },
            FlashEvent::FastbootProbed { reachable: false, device_index: None },
            FlashEvent::FirmwareInspected(facts(KeyClass::Testkey)),
        ],
    );
    assert_eq!(
        acts[2],
        FlashAction::Stop(
            FlashError::PreEdl(PreEdlAbort::RollbackOnFastbootUnreachable),
            StopRecovery::AdbReboot
        )
    );
}

#[test]
fn flash_run_unknown_key_aborts_before_edl_with_fastboot_reboot() {
    let (s, _) = flash_start(cfg(ConnectionStatus::Adb, RollbackMode::Off));
    let (s, acts) = drive(
        s,
        &[
            FlashEvent::FastbootProbed { reachable: true, device_index: None },
            FlashEvent::FirmwareInspected(facts(KeyClass::Unknown)),
        ],
    );
    assert_eq!(
        acts[1],
        FlashAction::Stop(
            FlashError::PreEdl(PreEdlAbort::FirmwareKeyUnknown),
            StopRecovery::RebootFastbootToSystem
        )
    );
    assert!(!s.gates_passed);
    // Started in Fastboot: no reboot to system.
    let (s, _) = flash_start(cfg(ConnectionStatus::Fastboot, RollbackMode::Off));
    let (_, acts) = drive(
        s,
        &[
            FlashEvent::FastbootProbed { reachable: true, device_index: None },
            FlashEvent::FirmwareInspected(facts(KeyClass::Unknown)),
        ],
    );
    assert_eq!(
        acts[1],
        FlashAction::Stop(FlashError::PreEdl(PreEdlAbort::FirmwareKeyUnknown), StopRecovery::Leave)
    );
}

#[test]
fn flash_run_model_mismatch_aborts_pre_edl_but_not_on_edl_start() {
    let mut f = facts(KeyClass::Testkey);
    f.model_mismatch = true;
    let (s, _) = flash_start(cfg(ConnectionStatus::Adb, RollbackMode::Off));
    let (_, acts) = drive(
        s,
        &[FlashEvent::FastbootProbed { reachable: true, device_index: None }, FlashEvent::FirmwareInspected(f)],
    );
    assert_eq!(
        acts[1],
        FlashAction::Stop(FlashError::ModelMismatchPreEdl, StopRecovery::RebootFastbootToSystem)
    );
    let (s, _) = flash_start(cfg(ConnectionStatus::Edl, RollbackMode::Off));
    let (_, acts) = drive(
        s,
        &[FlashEvent::FastbootProbed { reachable: false, device_index: None }, FlashEvent::FirmwareInspected(f)],
    );
    assert_eq!(acts[1], FlashAction::DecryptXml);
}

#[test]
fn flash_run_tb323fu_on_is_demoted_and_builds_its_chain() {
    let mut f = facts(KeyClass::Testkey);
    f.target_is_tb323fu = true;
    f.tb323fu_skip_region = true;
    let (s, _) = flash_start(cfg(ConnectionStatus::Fastboot, RollbackMode::On));
    let (s, acts) = drive(
        s,
        &[
            FlashEvent::FastbootProbed { reachable: true, device_index: None },
            FlashEvent::FirmwareInspected(f),
            FlashEvent::XmlDecrypted { ok: true, loader_found: true },
            FlashEvent::EdlEntered { ok: true },
            FlashEvent::SessionOpened { ok: true },
            FlashEvent::XmlsCollected { ok: true, rawprogram_count: 2 },
        ],
    );
    assert_eq!(s.mode, RollbackMode::Auto);
    assert_eq!(acts[5], FlashAction::BuildOverlays { resign: false });
    // A downgrade needs the `_arb` GBL, then writing starts.
    let (s, a) = flash_step(&s, FlashEvent::OverlaysBuilt(Some((4, true))));
    assert_eq!(a, FlashAction::FetchGbl { arb: true });
    let (s, a) = flash_step(&s, FlashEvent::GblFetched { ok: true });
    assert_eq!(a, FlashAction::Write(WriteStep::Rawprogram));
    assert_eq!(write_plan_of(&s).overlays, 4);
}

#[test]
fn flash_run_no_loader_finishes_without_edl() {
    let (s, _) = flash_start(cfg(ConnectionStatus::Fastboot, RollbackMode::Off));
    let (_, acts) = drive(
        s,
        &[
            FlashEvent::FastbootProbed { reachable: true, device_index: None },
            FlashEvent::FirmwareInspected(facts(KeyClass::Testkey)),
            FlashEvent::XmlDecrypted { ok: true, loader_found: false },
        ],
    );
    assert_eq!(acts[2], FlashAction::Finish(FlashOutcome::NoLoader));
}

#[test]
fn flash_run_region_conversion_needs_device_region() {
    let mut c = cfg(ConnectionStatus::Fastboot, RollbackMode::Off);
    c.modify_region = true;
    let (s, _) = flash_start(c);
    let (_, acts) = drive(
        s,
        &[
            FlashEvent::FastbootProbed { reachable: true, device_index: None },
            FlashEvent::FirmwareInspected(facts(KeyClass::Testkey)),
        ],
    );
    assert_eq!(
        acts[1],
        FlashAction::Stop(FlashError::RegionMissingDeviceRegion, StopRecovery::Leave)
    );
    c.device_region = Some(DeviceRegion::Row);
    let (s, _) = flash_start(c);
    let (s, acts) = drive(
        s,
        &[
            FlashEvent::FastbootProbed { reachable: true, device_index: None },
            FlashEvent::FirmwareInspected(facts(KeyClass::Testkey)),
            FlashEvent::RegionBuilt(RegionBuild::Built),
        ],
    );
    assert_eq!(acts[1], FlashAction::BuildRegionChain(DeviceRegion::Row));
    assert_eq!(acts[2], FlashAction::DecryptXml);
    assert!(s.region_pair && s.gates_passed);
}

#[test]
fn flash_run_per_location_patches_and_stages() {
    let s = to_session(ConnectionStatus::Fastboot, RollbackMode::Auto, KeyClass::Testkey);
    let (s, a) = flash_step(&s, FlashEvent::XmlsCollected { ok: true, rawprogram_count: 1 });
    assert_eq!(a, FlashAction::AnalyzeLocation(0));
    assert_eq!(s.floors, (Some(3), Some(3)));
    let loc = LocationFacts { usable: true, needs_patch: true, algorithm_none: true, key: KeyLookup::Unsigned };
    let (s, a) = flash_step(&s, FlashEvent::LocationAnalyzed(loc));
    assert_eq!(a, FlashAction::PatchLocation(0, ArbLocationStep::AddHashFooter(3)));
    let (s, a) = flash_step(&s, FlashEvent::LocationPatched(PatchOutcome::Staged));
    assert_eq!(a, FlashAction::AnalyzeLocation(1));
    let loc = LocationFacts { usable: true, needs_patch: true, algorithm_none: false, key: KeyLookup::Unrecognized };
    let (s, a) = flash_step(&s, FlashEvent::LocationAnalyzed(loc));
    assert_eq!(a, FlashAction::Stop(FlashError::SigningKeyUnknown, StopRecovery::ResetTolerant));
    assert_eq!(s.stage, FlashStage::Finished);
}

#[test]
fn flash_run_fixed_firmware_on_testkey_device_backs_up_abl() {
    let s = to_session(ConnectionStatus::Fastboot, RollbackMode::Auto, KeyClass::Fixed);
    let (s, a) = flash_step(&s, FlashEvent::XmlsCollected { ok: true, rawprogram_count: 1 });
    assert_eq!(a, FlashAction::ReadDeviceVbmeta);
    let key = DeviceKey {
        class: KeyClass::Testkey,
        boot_floor: 5,
        vbs_floor: 5,
        firmware_boot_index: 3,
        firmware_vbs_index: 3,
    };
    let (s, a) = flash_step(&s, FlashEvent::DeviceVbmetaRead(Some(key)));
    assert_eq!(a, FlashAction::BuildOverlays { resign: true });
    let (s, a) = flash_step(&s, FlashEvent::OverlaysBuilt(Some((4, true))));
    assert_eq!(a, FlashAction::BackupAbl);
    let (s, a) = flash_step(&s, FlashEvent::AblBackedUp { ok: true });
    assert_eq!(a, FlashAction::Write(WriteStep::Rawprogram));
    assert_eq!(s.mode, RollbackMode::Off);
    let plan = write_plan_of(&s);
    assert!(plan.abl_backup);
    assert_eq!(plan.overlays, 4);
    // A failed rawprogram restores the abl, then stops.
    let (_, a) = flash_step(&s, FlashEvent::WriteDone { ok: false });
    assert_eq!(a, FlashAction::RestoreAblThenStop(FlashError::Write(WriteAbort::FirmwareFailed)));
}

#[test]
fn flash_run_fixed_downgrade_on_fixed_device_resets_to_system() {
    let s = to_session(ConnectionStatus::Fastboot, RollbackMode::Auto, KeyClass::Fixed);
    let (s, _) = flash_step(&s, FlashEvent::XmlsCollected { ok: true, rawprogram_count: 1 });
    let key = DeviceKey {
        class: KeyClass::Fixed,
        boot_floor: 5,
        vbs_floor: 2,
        firmware_boot_index: 4,
        firmware_vbs_index: 9,
    };
    let (_, a) = flash_step(&s, FlashEvent::DeviceVbmetaRead(Some(key)));
    assert_eq!(a, FlashAction::Stop(FlashError::Key2DeviceConstraint, StopRecovery::ResetToSystem));
}

#[test]
fn flash_run_edl_start_tb322fc_refuses_non_cn_country() {
    let mut c = cfg(ConnectionStatus::Edl, RollbackMode::Auto);
    c.country = CountryTarget::NonCn;
    let (s, _) = flash_start(c);
    let (s, acts) = drive(
        s,
        &[
            FlashEvent::FastbootProbed { reachable: false, device_index: None },
            FlashEvent::FirmwareInspected(facts(KeyClass::Testkey)),
            FlashEvent::XmlDecrypted { ok: true, loader_found: true },
            FlashEvent::EdlEntered { ok: true },
            FlashEvent::SessionOpened { ok: true },
            FlashEvent::EdlIdentityRead { floors: Ok(None), rollback_protected: false },
        ],
    );
    assert_eq!(acts[4], FlashAction::ProbeEdlIdentity);
    assert_eq!(acts[5], FlashAction::Stop(FlashError::Tb322fcPrcOnly, StopRecovery::ResetToEdl));
    assert!(s.session_open);
    // An unreadable identity also goes back into EDL.
    let (s, _) = flash_start(cfg(ConnectionStatus::Edl, RollbackMode::Auto));
    let (_, acts) = drive(
        s,
        &[
            FlashEvent::FastbootProbed { reachable: false, device_index: None },
            FlashEvent::FirmwareInspected(facts(KeyClass::Testkey)),
            FlashEvent::XmlDecrypted { ok: true, loader_found: true },
            FlashEvent::EdlEntered { ok: true },
            FlashEvent::SessionOpened { ok: true },
            FlashEvent::EdlIdentityRead { floors: Err(EdlProbeError::AvbInvalid), rollback_protected: true },
        ],
    );
    assert_eq!(
        acts[5],
        FlashAction::Stop(FlashError::EdlProbe(EdlProbeError::AvbInvalid), StopRecovery::ResetToEdl)
    );
}

#[test]
fn flash_run_writes_to_the_end() {
    let s = to_session(ConnectionStatus::Fastboot, RollbackMode::Off, KeyClass::Testkey);
    let (mut s, a) = flash_step(&s, FlashEvent::XmlsCollected { ok: true, rawprogram_count: 1 });
    assert_eq!(a, FlashAction::Write(WriteStep::Rawprogram));
    let mut seen = Vec::new();
    loop {
        let (t, a) = flash_step(&s, FlashEvent::WriteDone { ok: true });
        s = t;
        match a {
            FlashAction::Write(w) => seen.push(w),
            FlashAction::Finish(o) => {
                assert_eq!(o, FlashOutcome::Flashed);
                break;
            }
            other => panic!("unexpected {:?}", other),
        }
    }
    assert_eq!(seen, vec![WriteStep::SetActiveSlotA, WriteStep::Reset]);
    let (_, a) = flash_step(&s, FlashEvent::WriteDone { ok: true });
    assert_eq!(a, FlashAction::Unexpected);
}

#[test]
fn flash_run_country_target_from_code() {
    assert_eq!(country_target(None), CountryTarget::NoTarget);
    assert_eq!(country_target(Some("cn")), CountryTarget::Cn);
    assert_eq!(country_target(Some("US")), CountryTarget::NonCn);
}

#[test]
fn flash_run_protected_model_without_index_reads_it_over_edl() {
    let (s, _) = flash_start(cfg(ConnectionStatus::Fastboot, RollbackMode::Auto));
    let (s, acts) = drive(
        s,
        &[
            FlashEvent::FastbootProbed { reachable: true, device_index: None },
            FlashEvent::FirmwareInspected(facts(KeyClass::Testkey)),
            FlashEvent::XmlDecrypted { ok: true, loader_found: true },
            FlashEvent::EdlEntered { ok: true },
            FlashEvent::SessionOpened { ok: true },
            FlashEvent::XmlsCollected { ok: true, rawprogram_count: 1 },
        ],
    );
    assert_eq!(acts[5], FlashAction::ReadEdlIndex);
    let (s, a) = flash_step(&s, FlashEvent::EdlIndexRead(Some(6)));
    assert_eq!(a, FlashAction::AnalyzeLocation(0));
    assert_eq!(s.floors, (Some(6), Some(6)));
    let (_, a) = flash_step(&s, FlashEvent::LocationPatched(PatchOutcome::Staged));
    assert_eq!(a, FlashAction::Unexpected);
}

#[test]
fn flash_run_tb323fu_on_and_auto_take_the_same_actions() {
    let mut f = facts(KeyClass::Testkey);
    f.target_is_tb323fu = true;
    f.tb323fu_skip_region = true;
    let events = [
        FlashEvent::FastbootProbed { reachable: false, device_index: None },
        FlashEvent::FirmwareInspected(f),
        FlashEvent::XmlDecrypted { ok: true, loader_found: true },
        FlashEvent::EdlEntered { ok: true },
        FlashEvent::SessionOpened { ok: true },
        FlashEvent::XmlsCollected { ok: true, rawprogram_count: 1 },
        FlashEvent::OverlaysBuilt(Some((2, false))),
        FlashEvent::WriteDone { ok: true },
        FlashEvent::WriteDone { ok: true },
        FlashEvent::WriteDone { ok: true },
        FlashEvent::WriteDone { ok: true },
        FlashEvent::WriteDone { ok: true },
    ];
    let (on, _) = flash_start(cfg(ConnectionStatus::Fastboot, RollbackMode::On));
    let (auto, _) = flash_start(cfg(ConnectionStatus::Fastboot, RollbackMode::Auto));
    let (on_end, on_acts) = drive(on, &events);
    let (auto_end, auto_acts) = drive(auto, &events);
    assert_eq!(on_acts, auto_acts);
    assert_eq!(on_acts[1], FlashAction::DecryptXml);
    assert_eq!(*on_acts.last().unwrap(), FlashAction::Finish(FlashOutcome::Flashed));
    assert_eq!(on_end.mode, auto_end.mode);
    // A blind On elsewhere would stop on the unreachable Fastboot.
    let mut g = f;
    g.target_is_tb323fu = false;
    let (on, _) = flash_start(cfg(ConnectionStatus::Fastboot, RollbackMode::On));
    let (_, acts) = drive(on, &[events[0], FlashEvent::FirmwareInspected(g)]);
    assert_eq!(
        acts[1],
        FlashAction::Stop(
            FlashError::PreEdl(PreEdlAbort::RollbackOnFastbootUnreachable),
            StopRecovery::AdbReboot
        )
    );
}
