use ltbox_gui::device::{
    adb_reboot_argument, adb_state_allows_edl_reboot, bridge_adb_to_bootloader, edl_loader_reboot,
    is_adb_connected, reboot_command, ConnectionStatus, EdlReset, RebootCommand, RebootError,
    RebootTarget,
};
use ltbox_gui::loader::{
    decrypted_xml_name, extension_eq_ignore_ascii_case, is_rawprogram_xml_name, is_zst_file_name,
    loader_file_name_ok, zst_progress_step, zst_scan_descends, zst_target_name, zst_temp_name,
};
use ltbox_gui::transfer::{
    dump_geometry, flash_row_step, is_critical_dump_label, lun_dump_file_name, scanned_luns,
    FlashRowState, RowStep,
};

#[test]
fn reboot_routes() {
    assert_eq!(
        reboot_command(ConnectionStatus::Adb, RebootTarget::Recovery),
        Ok(RebootCommand::Adb(RebootTarget::Recovery))
    );
    assert_eq!(
        reboot_command(ConnectionStatus::AdbRecovery, RebootTarget::System),
        Ok(RebootCommand::Adb(RebootTarget::System))
    );
    assert_eq!(adb_reboot_argument(RebootTarget::System), "");
    assert_eq!(adb_reboot_argument(RebootTarget::Edl), "edl");
    assert_eq!(adb_reboot_argument(RebootTarget::Bootloader), "bootloader");
    assert_eq!(adb_reboot_argument(RebootTarget::Recovery), "recovery");
    assert_eq!(
        reboot_command(ConnectionStatus::Fastboot, RebootTarget::System),
        Ok(RebootCommand::FastbootReboot)
    );
    assert_eq!(
        reboot_command(ConnectionStatus::Fastboot, RebootTarget::Bootloader),
        Ok(RebootCommand::FastbootRebootBootloader)
    );
    assert_eq!(
        reboot_command(ConnectionStatus::Fastboot, RebootTarget::Edl),
        Ok(RebootCommand::EnterEdlFromFastboot)
    );
    assert_eq!(
        reboot_command(ConnectionStatus::Fastboot, RebootTarget::Recovery),
        Err(RebootError::FastbootRecoveryUnsupported)
    );
    assert_eq!(
        reboot_command(ConnectionStatus::Disconnected, RebootTarget::System),
        Err(RebootError::NoDevice)
    );
    assert_eq!(
        reboot_command(ConnectionStatus::AdbUnauthorized, RebootTarget::System),
        Err(RebootError::UsbDebuggingUnauthorized)
    );
    assert_eq!(
        reboot_command(ConnectionStatus::AdbServerBlocking, RebootTarget::Edl),
        Err(RebootError::AdbServerBlocking)
    );
    assert_eq!(edl_loader_reboot(RebootTarget::System), Some(EdlReset::ToSystem));
    assert_eq!(edl_loader_reboot(RebootTarget::Edl), Some(EdlReset::ToEdl));
    assert_eq!(edl_loader_reboot(RebootTarget::Recovery), None);
    assert_eq!(edl_loader_reboot(RebootTarget::Bootloader), None);
}

#[test]
fn adb_edl_entry_states() {
    assert!(adb_state_allows_edl_reboot(Some("device")));
    assert!(adb_state_allows_edl_reboot(Some("recovery")));
    assert!(!adb_state_allows_edl_reboot(Some("unauthorized")));
    assert!(!adb_state_allows_edl_reboot(None));
    assert!(is_adb_connected(ConnectionStatus::AdbRecovery));
    assert!(!is_adb_connected(ConnectionStatus::Fastboot));
    assert!(bridge_adb_to_bootloader(false, ConnectionStatus::Adb));
    assert!(!bridge_adb_to_bootloader(true, ConnectionStatus::Adb));
    assert!(!bridge_adb_to_bootloader(false, ConnectionStatus::Edl));
}

#[test]
fn critical_dump_labels() {
    // `devinfo`, `devinfo_a`, `DEVINFO_B` all match.
    assert!(is_critical_dump_label("devinfo"));
    assert!(is_critical_dump_label("devinfo_a"));
    assert!(is_critical_dump_label("DEVINFO_B"));
    assert!(is_critical_dump_label("Persist"));
    assert!(is_critical_dump_label("persist_b"));
    assert!(!is_critical_dump_label("devinfo2"));
    assert!(!is_critical_dump_label("boot_a"));
    assert!(!is_critical_dump_label("devinf"));
}

#[test]
fn geometry_is_never_truncated() {
    assert_eq!(dump_geometry(34, 8), Some((34, 8)));
    assert_eq!(dump_geometry(u32::MAX as u64, 1), Some((u32::MAX, 1)));
    assert_eq!(dump_geometry(u32::MAX as u64 + 1, 1), None);
}

#[test]
fn flash_rows() {
    assert_eq!(flash_row_step(FlashRowState::Unchecked, true, true), RowStep::Ignore);
    assert_eq!(flash_row_step(FlashRowState::Erase, false, false), RowStep::Erase);
    assert_eq!(flash_row_step(FlashRowState::Flash, false, false), RowStep::SkipNoImage);
    assert_eq!(flash_row_step(FlashRowState::Flash, true, false), RowStep::SkipMissingImage);
    assert_eq!(flash_row_step(FlashRowState::Flash, true, true), RowStep::Flash);
}

#[test]
fn lun_files() {
    assert_eq!(lun_dump_file_name(0), "lun_0.img");
    assert_eq!(lun_dump_file_name(5), "lun_5.img");
    assert_eq!(lun_dump_file_name(200), "lun_200.img");
    assert_eq!(scanned_luns(), [0, 1, 2, 3, 4, 5]);
}

#[test]
fn loader_names() {
    assert!(loader_file_name_ok("xbl_s_devprg_ns.melf", false));
    assert!(loader_file_name_ok("prog.MBN", false));
    assert!(loader_file_name_ok("prog.elf", false));
    assert!(loader_file_name_ok("rawprogram.xml", false));
    assert!(!loader_file_name_ok("prog.bin", false));
    assert!(!loader_file_name_ok(".elf", false));
    assert!(!loader_file_name_ok("melf", false));
    assert!(loader_file_name_ok("qsahara_device_programmer.x", true));
    assert!(extension_eq_ignore_ascii_case("rawprogram0.X", "x"));
    assert!(!extension_eq_ignore_ascii_case("rawprogram0.xml", "x"));
}

#[test]
fn rawprogram_names() {
    assert!(is_rawprogram_xml_name("rawprogram0.xml"));
    assert!(is_rawprogram_xml_name("rawprogram_unsparse0.xml"));
    assert!(!is_rawprogram_xml_name("rawprogram0.XML"));
    assert!(!is_rawprogram_xml_name("patch0.xml"));
    assert!(!is_rawprogram_xml_name("rawprogram0.xml.bak"));
}

#[test]
fn zst_names_and_progress() {
    assert!(is_zst_file_name("super.img.zst"));
    assert!(is_zst_file_name("super.img.ZST"));
    assert!(!is_zst_file_name(".zst"));
    assert!(!is_zst_file_name("super.img"));
    assert_eq!(zst_target_name("super.img.zst"), "super.img");
    assert_eq!(zst_target_name("plain"), "plain");
    assert_eq!(zst_temp_name("super.img"), "super.img.ltbox-zst-tmp");
    assert_eq!(decrypted_xml_name("rawprogram0.x"), "rawprogram0.xml");
    assert_eq!(decrypted_xml_name("rawprogram_unsparse0.x"), "rawprogram_unsparse0.xml");
    assert!(zst_scan_descends(8));
    assert!(!zst_scan_descends(9));
    assert_eq!(zst_progress_step(10, 1 << 30), (false, 1 << 30));
    assert_eq!(zst_progress_step(1 << 30, 1 << 30), (true, 2 << 30));
    assert_eq!(zst_progress_step(5 << 30, 1 << 30), (true, 2 << 30));
}
