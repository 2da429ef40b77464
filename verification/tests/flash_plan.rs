use ltbox_gui::flash::{
    arb_path, arb_step_for, effective_rollback_mode, efisp_step, fixed_install_refused,
    gbl_fetch_needed, location_floors, needs_edl_index_read, pre_edl_gate, region_step,
    target_is_tb323fu, tb323fu_skips_region, ArbLocationStep, ArbPath,
    DeviceRegion, EfispStep, KeyClass, KeyLookup, PreEdlAbort, RegionStep, RollbackMode,
};
use ltbox_gui::flash_run::{country_target, tb322fc_prc_only_violation};
use ltbox_gui::rollback::{
    device_vbmeta_identity, edl_start_floors, rollback_floors, slot_from_current_slot,
    DeviceVbmetaError, Slot,
};

#[test]
fn tb323fu_never_runs_blind_on() {
    assert_eq!(effective_rollback_mode(true, RollbackMode::On), RollbackMode::Auto);
    assert_eq!(effective_rollback_mode(true, RollbackMode::Off), RollbackMode::Off);
    assert_eq!(effective_rollback_mode(true, RollbackMode::Auto), RollbackMode::Auto);
    assert_eq!(effective_rollback_mode(false, RollbackMode::On), RollbackMode::On);
}

#[test]
fn pre_edl_gates_in_order() {
    assert_eq!(
        pre_edl_gate(RollbackMode::On, false, false, KeyClass::Unknown, true, false),
        Err(PreEdlAbort::RollbackOnFastbootUnreachable)
    );
    // An EDL start reads the index over EDL instead.
    assert_eq!(
        pre_edl_gate(RollbackMode::On, false, true, KeyClass::Testkey, false, false),
        Ok(())
    );
    assert_eq!(
        pre_edl_gate(RollbackMode::Auto, false, false, KeyClass::Unknown, false, false),
        Err(PreEdlAbort::FirmwareKeyUnknown)
    );
    assert_eq!(
        pre_edl_gate(RollbackMode::Off, true, false, KeyClass::Fixed, true, false),
        Err(PreEdlAbort::FixedKeyCrossRegion)
    );
    assert_eq!(
        pre_edl_gate(RollbackMode::Off, true, false, KeyClass::Fixed, true, true),
        Ok(())
    );
    assert_eq!(
        pre_edl_gate(RollbackMode::On, true, false, KeyClass::Fixed, false, false),
        Ok(())
    );
}

#[test]
fn region_steps() {
    assert_eq!(region_step(false, false, true, true, None), RegionStep::NotRequested);
    assert_eq!(region_step(true, true, true, true, None), RegionStep::NotRequested);
    assert_eq!(region_step(true, false, true, false, None), RegionStep::ImagesMissing);
    assert_eq!(region_step(true, false, true, true, None), RegionStep::DeviceRegionMissing);
    assert_eq!(
        region_step(true, false, true, true, Some(DeviceRegion::Prc)),
        RegionStep::Convert(DeviceRegion::Prc)
    );
}

#[test]
fn tb322fc_is_prc_only() {
    assert!(tb322fc_prc_only_violation(true, country_target(None)));
    assert!(tb322fc_prc_only_violation(false, country_target(Some("US"))));
    assert!(!tb322fc_prc_only_violation(false, country_target(Some("cn"))));
    assert!(!tb322fc_prc_only_violation(false, country_target(None)));
}

#[test]
fn fixed_device_installs_only_same_region_without_downgrade() {
    assert!(!fixed_install_refused(false, 5, 5, 5, 5));
    assert!(!fixed_install_refused(false, 6, 9, 5, 5));
    assert!(fixed_install_refused(true, 6, 9, 5, 5));
    assert!(fixed_install_refused(false, 4, 9, 5, 5));
    assert!(fixed_install_refused(false, 9, 4, 5, 5));
}

#[test]
fn arb_paths_and_floors() {
    assert_eq!(arb_path(RollbackMode::Off, true), ArbPath::Bypassed);
    assert_eq!(arb_path(RollbackMode::Auto, true), ArbPath::Tb323fuOverlays);
    assert_eq!(arb_path(RollbackMode::On, false), ArbPath::PerLocation);
    assert!(needs_edl_index_read(None, None, true));
    assert!(!needs_edl_index_read(Some((1, 2)), None, true));
    assert!(!needs_edl_index_read(None, Some(3), true));
    assert!(!needs_edl_index_read(None, None, false));
    assert_eq!(location_floors(Some((10, 8)), Some(3)), (Some(10), Some(8)));
    assert_eq!(location_floors(None, Some(3)), (Some(3), Some(3)));
    assert_eq!(location_floors(None, None), (None, None));
}

#[test]
fn arb_location_steps() {
    assert_eq!(
        arb_step_for(false, false, Some(4), false, KeyLookup::Known),
        ArbLocationStep::Keep
    );
    assert_eq!(
        arb_step_for(false, true, None, false, KeyLookup::Known),
        ArbLocationStep::SkipUnknownDevice
    );
    assert_eq!(
        arb_step_for(false, true, Some(4), false, KeyLookup::Unrecognized),
        ArbLocationStep::AbortUnknownKey
    );
    assert_eq!(
        arb_step_for(true, true, Some(4), true, KeyLookup::Known),
        ArbLocationStep::Resign(4)
    );
    assert_eq!(
        arb_step_for(true, true, Some(4), true, KeyLookup::Unsigned),
        ArbLocationStep::SkipUnsigned
    );
    assert_eq!(
        arb_step_for(false, true, Some(4), true, KeyLookup::Unsigned),
        ArbLocationStep::AddHashFooter(4)
    );
    assert_eq!(
        arb_step_for(false, true, Some(7), false, KeyLookup::Known),
        ArbLocationStep::Resign(7)
    );
    assert_eq!(
        arb_step_for(false, true, Some(7), false, KeyLookup::Unsigned),
        ArbLocationStep::SkipUnsigned
    );
}

#[test]
fn efisp_steps() {
    assert!(gbl_fetch_needed(true, true, false));
    assert!(gbl_fetch_needed(true, false, true));
    assert!(!gbl_fetch_needed(true, false, false));
    assert!(!gbl_fetch_needed(false, true, true));
    assert_eq!(efisp_step(false, true, true, true, false), EfispStep::Untouched);
    assert_eq!(
        efisp_step(true, true, true, false, false),
        EfispStep::Flash { fatal_on_failure: true }
    );
    assert_eq!(
        efisp_step(true, true, false, false, true),
        EfispStep::Flash { fatal_on_failure: false }
    );
    assert_eq!(efisp_step(true, false, true, true, false), EfispStep::AbortArbGblMissing);
    assert_eq!(efisp_step(true, false, false, true, false), EfispStep::Erase);
    assert_eq!(efisp_step(true, false, false, false, false), EfispStep::Untouched);
    assert_eq!(efisp_step(true, false, false, true, true), EfispStep::Untouched);
}

#[test]
fn tb323fu_flags() {
    assert!(target_is_tb323fu(Some("Lenovo/TB323FU/TB323FU:14/x")));
    assert!(!target_is_tb323fu(Some("Lenovo/TB320FC/TB320FC:14/x")));
    assert!(!target_is_tb323fu(None));
    assert!(tb323fu_skips_region(None, "TB323FU"));
    assert!(!tb323fu_skips_region(None, "TB320FC"));
}

#[test]
fn rollback_floors_are_maxima_per_location() {
    assert_eq!(rollback_floors([Some(3), Some(3)], [Some(2), None]), Some((3, 2)));
    assert_eq!(
        rollback_floors([Some(u64::MAX), Some(0)], [Some(0), Some(u64::MAX)]),
        Some((u64::MAX, u64::MAX))
    );
    assert_eq!(edl_start_floors(false, None), Ok(None));
    assert_eq!(edl_start_floors(true, Some((4, 5))), Ok(Some((4, 5))));
    assert_eq!(edl_start_floors(true, None), Err(()));
}

#[test]
fn active_slot_and_device_floors() {
    assert_eq!(slot_from_current_slot("b"), Slot::B);
    assert_eq!(slot_from_current_slot("_B"), Slot::B);
    assert_eq!(slot_from_current_slot("a"), Slot::A);
    assert_eq!(slot_from_current_slot(""), Slot::A);
    assert_eq!(
        device_vbmeta_identity(None, [None, None], [Some(1), Some(1)]),
        Err(DeviceVbmetaError::NoVbmetaParsed)
    );
    assert_eq!(
        device_vbmeta_identity(None, [Some(3), Some(3)], [Some(1), None]),
        Ok((Slot::A, 1, 3))
    );
    assert_eq!(
        device_vbmeta_identity(None, [Some(3), Some(4)], [Some(9), Some(1)]),
        Ok((Slot::B, 9, 4))
    );
    assert_eq!(
        device_vbmeta_identity(None, [None, Some(2)], [Some(1), None]),
        Ok((Slot::B, 1, 2))
    );
    assert_eq!(
        device_vbmeta_identity(Some(Slot::B), [Some(3), None], [Some(1), None]),
        Err(DeviceVbmetaError::ActiveUnreadable)
    );
    assert_eq!(
        device_vbmeta_identity(Some(Slot::A), [Some(3), None], [None, None]),
        Err(DeviceVbmetaError::FloorsUnreadable)
    );
}
