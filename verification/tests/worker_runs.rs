use ltbox_gui::advanced::{
    advanced_plan, AdvAction, AdvError, AdvInputs, AdvPlan, ArbImage, ArbImageFacts,
    BootIndexPatch, VbmetaFacts,
};
use ltbox_gui::country::{CountryPatchProgress, DetectedCodePlan, SettleStep};
use ltbox_gui::country_run::{country_start, country_step, CountryAction, CountryEvent, CountryFailure};
use ltbox_gui::flash::DeviceRegion;
use ltbox_gui::rescue_run::{
    rescue_preflight, rescue_start, rescue_step, RescueAction, RescueError, RescueEvent,
};
use ltbox_gui::rollback::Slot;
use ltbox_gui::root_run::{root_start, root_step, RootAction, RootError, RootEvent, RootPartition};
use ltbox_gui::simple_runs::{
    simple_flash_next, simple_flash_preflight, unroot_next, unroot_preflight, SimpleFlashError,
    SimpleFlashNext, SimpleFlashStep, UnrootError, UnrootNext, UnrootStep,
};
use ltbox_gui::sysupdate::{RescueImage, RescueRegion};
use ltbox_gui::transfer::{parts_first, parts_next, PartsNext};
use ltbox_gui::ui::{device_info_popup_enabled, exec_card_step, ota_popup_enabled};

#[test]
fn root_run_tb323fu_provisions_efisp_before_boot() {
    let (mut s, a) = root_start();
    assert_eq!(a, RootAction::EnterEdl);
    let events = [
        RootEvent::EdlEntered { ok: true },
        RootEvent::SessionOpened { ok: true },
        RootEvent::BootDumped { ok: true, is_tb323fu: true },
        RootEvent::EfispDumped { ok: true, empty: true },
        RootEvent::GblFetched { ok: true },
        RootEvent::BackedUp { ok: true },
        RootEvent::ResetToEdlDone { ok: true },
        RootEvent::Patched { ok: true, has_vbmeta: false },
        RootEvent::SessionOpened { ok: true },
        RootEvent::Written { ok: true },
        RootEvent::Written { ok: true },
    ];
    let mut acts = Vec::new();
    for e in events {
        let (t, a) = root_step(&s, e);
        s = t;
        acts.push(a);
    }
    assert_eq!(
        acts,
        vec![
            RootAction::OpenSession { for_flash: false },
            RootAction::Dump(RootPartition::Boot),
            RootAction::Dump(RootPartition::Efisp),
            RootAction::FetchGbl,
            RootAction::BackUp { vbmeta: false },
            RootAction::ResetToEdl,
            RootAction::BuildPatched,
            RootAction::OpenSession { for_flash: true },
            RootAction::Flash(RootPartition::Efisp),
            RootAction::Flash(RootPartition::Boot),
            RootAction::FinishWithReset,
        ]
    );
}

#[test]
fn root_run_failed_efisp_stops_before_boot() {
    let (mut s, _) = root_start();
    for e in [
        RootEvent::EdlEntered { ok: true },
        RootEvent::SessionOpened { ok: true },
        RootEvent::BootDumped { ok: true, is_tb323fu: true },
        RootEvent::EfispDumped { ok: true, empty: true },
        RootEvent::GblFetched { ok: true },
        RootEvent::BackedUp { ok: true },
        RootEvent::ResetToEdlDone { ok: true },
        RootEvent::Patched { ok: true, has_vbmeta: false },
        RootEvent::SessionOpened { ok: true },
    ] {
        s = root_step(&s, e).0;
    }
    let (s, a) = root_step(&s, RootEvent::Written { ok: false });
    assert_eq!(a, RootAction::FailWithReset(RootError::EfispProvisionFailed));
    assert_eq!(root_step(&s, RootEvent::Written { ok: true }).1, RootAction::Unexpected);
}

#[test]
fn root_run_other_models_back_up_vbmeta_and_write_it() {
    let (mut s, _) = root_start();
    let mut acts = Vec::new();
    for e in [
        RootEvent::EdlEntered { ok: true },
        RootEvent::SessionOpened { ok: true },
        RootEvent::BootDumped { ok: true, is_tb323fu: false },
        RootEvent::VbmetaDumped { ok: true },
        RootEvent::BackedUp { ok: true },
        RootEvent::ResetToEdlDone { ok: true },
        RootEvent::Patched { ok: true, has_vbmeta: true },
        RootEvent::SessionOpened { ok: true },
        RootEvent::Written { ok: true },
        RootEvent::Written { ok: true },
    ] {
        let (t, a) = root_step(&s, e);
        s = t;
        acts.push(a);
    }
    assert_eq!(acts[3], RootAction::BackUp { vbmeta: true });
    assert_eq!(acts[7], RootAction::Flash(RootPartition::Boot));
    assert_eq!(acts[8], RootAction::Flash(RootPartition::Vbmeta));
    assert_eq!(acts[9], RootAction::FinishWithReset);
    // A dump failure ends with the best-effort reset.
    let (s, _) = root_start();
    let (s, _) = root_step(&s, RootEvent::EdlEntered { ok: true });
    let (s, _) = root_step(&s, RootEvent::SessionOpened { ok: true });
    let (_, a) = root_step(&s, RootEvent::BootDumped { ok: false, is_tb323fu: false });
    assert_eq!(a, RootAction::FailWithReset(RootError::DumpFailed(RootPartition::Boot)));
}

#[test]
fn rescue_preflight_checks_in_order() {
    assert_eq!(
        rescue_preflight(false, None, false, "x.txt", false),
        Err(RescueError::LoaderNotSelected)
    );
    assert_eq!(
        rescue_preflight(true, None, false, "x.txt", false),
        Err(RescueError::RegionNotSelected)
    );
    assert_eq!(
        rescue_preflight(true, Some(RescueRegion::Prc), false, "x.txt", false),
        Err(RescueError::LoaderMissing)
    );
    assert_eq!(
        rescue_preflight(true, Some(RescueRegion::Prc), true, "x.txt", false),
        Err(RescueError::LoaderBadExtension)
    );
    assert_eq!(
        rescue_preflight(true, Some(RescueRegion::Row), true, "prog.MELF", false),
        Ok(RescueRegion::Row)
    );
    assert_eq!(
        rescue_preflight(true, Some(RescueRegion::Row), true, "qsahara_device_programmer.x", true),
        Ok(RescueRegion::Row)
    );
}

fn rescue_to_dumps(dumps: [bool; 4]) -> (ltbox_gui::rescue_run::RescueRun, RescueAction) {
    let (mut s, _) = rescue_start();
    for e in [
        RescueEvent::WorkDirCreated { ok: true },
        RescueEvent::EdlEntered { ok: true },
        RescueEvent::SessionOpened { ok: true },
    ] {
        s = rescue_step(&s, e).0;
    }
    let mut last = RescueAction::Unexpected;
    for ok in dumps {
        let (t, a) = rescue_step(&s, RescueEvent::Dumped { ok });
        s = t;
        last = a;
    }
    (s, last)
}

#[test]
fn rescue_run_writes_each_prepared_slot_then_resets() {
    let (s, a) = rescue_to_dumps([true, true, true, false]);
    assert_eq!(a, RescueAction::CheckModel);
    let (s, a) = rescue_step(&s, RescueEvent::ModelChecked { mismatch: false });
    // Slot B lacks its vbmeta: only A is prepared.
    assert_eq!(a, RescueAction::PrepareSlot(Slot::A));
    let (s, a) = rescue_step(&s, RescueEvent::SlotPrepared { ok: true });
    assert_eq!(a, RescueAction::Flash(RescueImage::VendorBoot, Slot::A));
    let (s, a) = rescue_step(&s, RescueEvent::Written { ok: true });
    assert_eq!(a, RescueAction::Flash(RescueImage::Vbmeta, Slot::A));
    let (_, a) = rescue_step(&s, RescueEvent::Written { ok: true });
    assert_eq!(a, RescueAction::FinishWithReset);
}

#[test]
fn rescue_run_failures() {
    let (_, a) = rescue_to_dumps([false, false, false, false]);
    assert_eq!(a, RescueAction::Stop { error: RescueError::NothingDumped, reset: false });
    let (s, _) = rescue_to_dumps([true, true, true, true]);
    let (_, a) = rescue_step(&s, RescueEvent::ModelChecked { mismatch: true });
    assert_eq!(a, RescueAction::Stop { error: RescueError::ModelMismatch, reset: true });
    let (s, _) = rescue_step(&s, RescueEvent::ModelChecked { mismatch: false });
    let (s, a) = rescue_step(&s, RescueEvent::SlotPrepared { ok: false });
    assert_eq!(a, RescueAction::PrepareSlot(Slot::B));
    let (s, a) = rescue_step(&s, RescueEvent::SlotPrepared { ok: true });
    assert_eq!(a, RescueAction::Flash(RescueImage::VendorBoot, Slot::B));
    let (s, a) = rescue_step(&s, RescueEvent::Written { ok: false });
    assert_eq!(
        a,
        RescueAction::Stop { error: RescueError::FlashFailed(RescueImage::VendorBoot, Slot::B), reset: false }
    );
    assert_eq!(rescue_step(&s, RescueEvent::Written { ok: true }).1, RescueAction::Unexpected);
    // Nothing prepared: nothing to flash.
    let (s, _) = rescue_to_dumps([true, true, false, false]);
    let (s, _) = rescue_step(&s, RescueEvent::ModelChecked { mismatch: false });
    let (_, a) = rescue_step(&s, RescueEvent::SlotPrepared { ok: false });
    assert_eq!(a, RescueAction::Stop { error: RescueError::NothingToFlash, reset: false });
}

fn adv_inputs() -> AdvInputs {
    AdvInputs {
        x_files: Some(2),
        region_target: Some(DeviceRegion::Prc),
        input_is_vendor_boot: true,
        sibling_vbmeta_is_file: true,
        country_given: true,
        input_is_dir: true,
        arb_target: Some(7),
        boot_is_file: true,
        vbmeta_system_is_file: true,
        boot: Some(ArbImageFacts { rollback_index: 5, algorithm_none: true, key_known: true }),
        vbmeta_system: Some(ArbImageFacts { rollback_index: 5, algorithm_none: false, key_known: true }),
        vbmeta: Some(VbmetaFacts { algorithm_none: true, key_known: true }),
    }
}

#[test]
fn advanced_plan_patch_arb_refusals_in_order() {
    let mut i = adv_inputs();
    assert_eq!(
        advanced_plan(AdvAction::PatchArb, i),
        Ok(AdvPlan::PatchArb { target: 7, boot: BootIndexPatch::AddHashFooter })
    );
    i.boot = Some(ArbImageFacts { rollback_index: 1, algorithm_none: false, key_known: false });
    assert_eq!(
        advanced_plan(AdvAction::PatchArb, i),
        Err(AdvError::ArbRollbackRefused(ArbImage::Boot))
    );
    i.vbmeta_system = None;
    assert_eq!(
        advanced_plan(AdvAction::PatchArb, i),
        Err(AdvError::ArbInspectFailed(ArbImage::VbmetaSystem))
    );
    i.vbmeta_system_is_file = false;
    assert_eq!(
        advanced_plan(AdvAction::PatchArb, i),
        Err(AdvError::ArbImageMissing(ArbImage::VbmetaSystem))
    );
    i.arb_target = None;
    assert_eq!(advanced_plan(AdvAction::PatchArb, i), Err(AdvError::ArbTargetMissing));
    let mut j = adv_inputs();
    j.vbmeta_system = Some(ArbImageFacts { rollback_index: 9, algorithm_none: false, key_known: false });
    assert_eq!(
        advanced_plan(AdvAction::PatchArb, j),
        Err(AdvError::SigningKeyUnknown(ArbImage::VbmetaSystem))
    );
}

#[test]
fn advanced_plan_other_actions() {
    let mut i = adv_inputs();
    assert_eq!(advanced_plan(AdvAction::ImageInfo, i), Err(AdvError::ImageInfoDedicated));
    assert_eq!(advanced_plan(AdvAction::DetectArb, i), Err(AdvError::DetectArbDedicated));
    assert_eq!(advanced_plan(AdvAction::DumpPartitions, i), Ok(AdvPlan::Notice));
    assert_eq!(advanced_plan(AdvAction::ConvertXml, i), Ok(AdvPlan::DecryptXml(2)));
    assert_eq!(advanced_plan(AdvAction::RegionConvert, i), Ok(AdvPlan::ConvertRegion(DeviceRegion::Prc)));
    assert_eq!(advanced_plan(AdvAction::PatchDevinfo, i), Ok(AdvPlan::PatchCountry));
    assert_eq!(
        advanced_plan(AdvAction::RebuildVbmeta, i),
        Ok(AdvPlan::RebuildVbmeta { algorithm_from_key: true })
    );
    i.x_files = Some(0);
    i.input_is_vendor_boot = false;
    i.input_is_dir = false;
    i.vbmeta = Some(VbmetaFacts { algorithm_none: false, key_known: false });
    assert_eq!(advanced_plan(AdvAction::ConvertXml, i), Err(AdvError::NoXFiles));
    assert_eq!(advanced_plan(AdvAction::RegionConvert, i), Err(AdvError::VendorBootExpected));
    assert_eq!(advanced_plan(AdvAction::PatchDevinfo, i), Err(AdvError::CountryFolderExpected));
    assert_eq!(advanced_plan(AdvAction::RebuildVbmeta, i), Err(AdvError::VbmetaKeyUnknown));
    i.x_files = None;
    i.region_target = None;
    i.country_given = false;
    i.vbmeta = None;
    assert_eq!(advanced_plan(AdvAction::ConvertXml, i), Err(AdvError::ReadDirFailed));
    assert_eq!(advanced_plan(AdvAction::RegionConvert, i), Err(AdvError::RegionTargetMissing));
    assert_eq!(advanced_plan(AdvAction::PatchDevinfo, i), Err(AdvError::CountryTargetMissing));
    assert_eq!(advanced_plan(AdvAction::RebuildVbmeta, i), Err(AdvError::VbmetaInspectFailed));
}

#[test]
fn country_run_attempts_every_label_after_a_failure() {
    let (mut s, a) = country_start(2);
    assert_eq!(a, CountryAction::ResolveLun(0));
    let mut acts = Vec::new();
    for e in [
        CountryEvent::LunResolved { found: true },
        CountryEvent::Dumped { ok: true },
        CountryEvent::BackedUp { ok: false },
        CountryEvent::Recorded,
        CountryEvent::LunResolved { found: true },
        CountryEvent::Dumped { ok: true },
        CountryEvent::BackedUp { ok: true },
        CountryEvent::Detected(DetectedCodePlan::PatchFound),
        CountryEvent::Patched { ok: true },
        CountryEvent::Settled(SettleStep::FlashPatched),
        CountryEvent::Flashed { ok: true },
        CountryEvent::Recorded,
    ] {
        let (t, a) = country_step(&s, e);
        s = t;
        acts.push(a);
    }
    assert_eq!(
        acts,
        vec![
            CountryAction::Dump(0),
            CountryAction::BackUp(0),
            CountryAction::MarkFailed(0, CountryFailure::BackupFailed),
            CountryAction::ResolveLun(1),
            CountryAction::Dump(1),
            CountryAction::BackUp(1),
            CountryAction::Detect(1),
            CountryAction::Patch(1),
            CountryAction::Settle(1),
            CountryAction::Flash(1),
            CountryAction::MarkFlashed(1),
            CountryAction::Finish,
        ]
    );
}

#[test]
fn country_run_detect_failure_is_recorded_then_followed() {
    let (mut s, _) = country_start(1);
    for e in [
        CountryEvent::LunResolved { found: true },
        CountryEvent::Dumped { ok: true },
        CountryEvent::BackedUp { ok: true },
    ] {
        s = country_step(&s, e).0;
    }
    let (s, a) = country_step(&s, CountryEvent::DetectFailed(DetectedCodePlan::PassThrough));
    assert_eq!(a, CountryAction::MarkFailed(0, CountryFailure::DetectFailed));
    let (s, a) = country_step(&s, CountryEvent::Recorded);
    assert_eq!(a, CountryAction::Settle(0));
    let (s, a) = country_step(&s, CountryEvent::Settled(SettleStep::PassThrough));
    assert_eq!(a, CountryAction::MarkFlashed(0));
    let (_, a) = country_step(&s, CountryEvent::Recorded);
    assert_eq!(a, CountryAction::Finish);
    assert_eq!(country_start(0).1, CountryAction::Finish);
}

#[test]
fn country_progress_failure_line_survives_later_success() {
    let mut p = CountryPatchProgress::new(&["devinfo", "persist"]);
    p.mark_failed("devinfo", "flash failed: timeout");
    p.mark_flashed("devinfo");
    p.mark_flashed("persist");
    let err = p.finish().unwrap_err();
    assert!(err.contains("devinfo: flash failed: timeout"));
}

#[test]
fn unroot_and_simple_flash_runs() {
    assert_eq!(
        unroot_preflight(true, false, true, true, Some(4), Some(4)),
        Err(UnrootError::VbmetaImageMissing)
    );
    assert_eq!(
        unroot_preflight(true, true, true, true, None, Some(4)),
        Err(UnrootError::BootLunMissing)
    );
    assert_eq!(unroot_preflight(true, true, true, true, Some(4), Some(5)), Ok((4, 5)));
    assert_eq!(unroot_next(UnrootStep::FlashBoot, true), UnrootNext::Do(UnrootStep::FlashVbmeta));
    assert_eq!(unroot_next(UnrootStep::FlashVbmeta, false), UnrootNext::Fail(UnrootError::VbmetaFlashFailed));
    assert_eq!(unroot_next(UnrootStep::Reset, false), UnrootNext::Fail(UnrootError::ResetFailed));
    assert_eq!(unroot_next(UnrootStep::Reset, true), UnrootNext::Done);
    assert_eq!(
        simple_flash_preflight(true, true, true, true, Some(0)),
        Err(SimpleFlashError::NoRawprogramXml)
    );
    assert_eq!(
        simple_flash_preflight(true, true, false, true, Some(1)),
        Err(SimpleFlashError::DecompressFailed)
    );
    assert_eq!(simple_flash_preflight(true, true, true, true, Some(1)), Ok(()));
    assert_eq!(
        simple_flash_next(SimpleFlashStep::Rawprogram, true),
        SimpleFlashNext::Do(SimpleFlashStep::SetActiveSlotA)
    );
    assert_eq!(
        simple_flash_next(SimpleFlashStep::SetActiveSlotA, false),
        SimpleFlashNext::Fail(SimpleFlashError::SetActiveFailed)
    );
    assert_eq!(simple_flash_next(SimpleFlashStep::ResetTolerant, false), SimpleFlashNext::Done);
}

#[test]
fn dashboard_popups_and_exec_card() {
    assert!(!ota_popup_enabled(""));
    assert!(ota_popup_enabled("ZUI 17.0"));
    assert!(!device_info_popup_enabled("TB320FC", ""));
    assert!(!device_info_popup_enabled("", "HA1234"));
    assert!(device_info_popup_enabled("TB320FC", "HA1234"));
    assert_eq!(exec_card_step(0, 0), None);
    assert_eq!(exec_card_step(1, 4), Some((1, 2)));
    assert_eq!(exec_card_step(9, 4), Some((3, 4)));
}

#[test]
fn flash_parts_pass_stops_at_first_failure_and_resets_last() {
    assert_eq!(parts_first(0), PartsNext::ResetAndFinish);
    assert_eq!(parts_first(3), PartsNext::Row(0));
    assert_eq!(parts_next(0, 3, true), PartsNext::Row(1));
    assert_eq!(parts_next(1, 3, false), PartsNext::StopFailed(1));
    assert_eq!(parts_next(2, 3, true), PartsNext::ResetAndFinish);
}
