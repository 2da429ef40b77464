use ltbox_gui::country::country_partitions_for;
use ltbox_gui::flash::{
    fixed_firmware_device_policy, should_reboot_fastboot_to_system_after_pre_edl_abort,
    FixedFirmwareDevicePolicy, KeyClass,
};
use ltbox_gui::rollback::rollback_floors;

#[test]
fn flash_pre_edl_abort_reboots_when_flash_flow_entered_fastboot() {
    assert!(should_reboot_fastboot_to_system_after_pre_edl_abort(false));
}

#[test]
fn flash_pre_edl_abort_keeps_fastboot_when_flash_started_in_fastboot() {
    assert!(!should_reboot_fastboot_to_system_after_pre_edl_abort(true));
}

#[test]
fn flash_edl_start_rollback_floors_are_component_wise() {
    // Per-location max across slots: _a=(boot 10, vbs 1), _b=(boot 9, vbs 8)
    // -> (10, 8); a single-slot pick would have missed vbs 8.
    assert_eq!(
        rollback_floors([Some(10), Some(9)], [Some(1), Some(8)]),
        Some((10, 8))
    );
    // A location that parsed on only one slot uses that slot's value.
    assert_eq!(
        rollback_floors([Some(7), None], [None, Some(3)]),
        Some((7, 3))
    );
    // A location that parsed on neither slot -> abort.
    assert_eq!(rollback_floors([None, None], [Some(5), Some(6)]), None);
    assert_eq!(rollback_floors([Some(5), Some(6)], [None, None]), None);
    assert_eq!(rollback_floors([None, None], [None, None]), None);
}

#[test]
fn country_partitions_select_by_model() {
    // TB320FC / TB323FU keep the country code only in oemowninfo.
    assert_eq!(country_partitions_for("TB320FC", None), &["oemowninfo"][..]);
    assert_eq!(country_partitions_for("TB323FU", None), &["oemowninfo"][..]);
    // Every other model uses devinfo + persist.
    assert_eq!(
        country_partitions_for("TB330FU", None),
        &["devinfo", "persist"][..]
    );
    // The AVB fingerprint (EDL-start, no probed model) also selects it.
    assert_eq!(
        country_partitions_for("", Some("Lenovo/TB323FU/TB323FU:14/build")),
        &["oemowninfo"][..]
    );
}

#[test]
fn mod_pre_edl_abort_reboots_when_flash_flow_entered_fastboot() {
    assert!(should_reboot_fastboot_to_system_after_pre_edl_abort(false));
}

#[test]
fn mod_pre_edl_abort_keeps_fastboot_when_flash_started_in_fastboot() {
    assert!(!should_reboot_fastboot_to_system_after_pre_edl_abort(true));
}

#[test]
fn mod_edl_start_rollback_floors_are_component_wise() {
    assert_eq!(
        rollback_floors([Some(10), Some(9)], [Some(1), Some(8)]),
        Some((10, 8))
    );
    assert_eq!(
        rollback_floors([Some(7), None], [None, Some(3)]),
        Some((7, 3))
    );
    assert_eq!(rollback_floors([None, None], [Some(5), Some(6)]), None);
    assert_eq!(rollback_floors([Some(5), Some(6)], [None, None]), None);
    assert_eq!(rollback_floors([None, None], [None, None]), None);
}

#[test]
fn fixed_firmware_resigns_for_device_with_rsa2048_vbmeta_system() {
    // The RSA-2048 and RSA-4096 testkeys both classify as Testkey, the
    // fixed "key2" as Fixed; classification itself is the key map's.
    let rsa2048 = KeyClass::Testkey;
    let rsa4096 = KeyClass::Testkey;
    let key2 = KeyClass::Fixed;

    assert_eq!(
        fixed_firmware_device_policy(rsa2048),
        FixedFirmwareDevicePolicy::ResignTestkey
    );
    assert_eq!(
        fixed_firmware_device_policy(rsa4096),
        FixedFirmwareDevicePolicy::ResignTestkey
    );
    assert_eq!(
        fixed_firmware_device_policy(key2),
        FixedFirmwareDevicePolicy::KeepFixed
    );
    assert_eq!(
        fixed_firmware_device_policy(KeyClass::Unknown),
        FixedFirmwareDevicePolicy::AbortUnknown
    );
}
