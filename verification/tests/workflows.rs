use ltbox_gui::ui::{
    driver_banner, step_connector_completed, step_dot_label, step_marker, DriverBanner,
    DriverIssue, StepMarker,
};
use ltbox_gui::advanced::{
    advanced_route, arb_patch_refused, boot_index_patch, chain_has_vendor_boot,
    country_image_names, country_output_name, devinfo_patch_outcome, region_convert_input_ok,
    vbmeta_chain_candidates, vbmeta_rebuild_algorithm, AdvAction, AdvRoute, BootIndexPatch,
    DevinfoPatchOutcome,
};
use ltbox_gui::device::{edl_entry_action, ConnectionStatus, EdlEntryAction};
use ltbox_gui::root::asset_name_matches;
use ltbox_gui::rollback::Slot;
use ltbox_gui::root::{
    lkm_kernel_version_missing, picked_file_use, resolve_root_route,
    retry_manager_install_after_reboot, root_boot_image_name, slot_partition, unroot_boot_image,
    Family, PickedFileUse, PipelineProvider, Provider, RootMode, RootRoute, RootSelectionError,
    UnrootType, VerChoice,
};
use ltbox_gui::sysupdate::{
    disable_settings_commands, enable_settings_command, install_existing_command, ota_packages,
    pm_clear_command, pm_uninstall_command, reboot_fastboot_to_system_first, reinstall_succeeded,
    rescue_partition_name, rescue_region_label, rescue_region_patterns, uninstall_succeeded,
    wait_for_adb_when_missing, RescueImage,
    RescueRegion, SysUpdateAction,
};
use ltbox_gui::ui::{
    cleanup_enabled, country_code_selectable, cross_region_selectable, device_portrait,
    is_start_label, parse_arb_index, rescue_selectable, root_family_selectable,
    root_mode_selectable, wizard_can_advance, Portrait,
};

#[test]
fn root_routes() {
    assert_eq!(
        resolve_root_route(None, None, None, None),
        Err(RootSelectionError::FamilyMissing)
    );
    assert_eq!(
        resolve_root_route(Some(Family::KernelSU), Some(RootMode::Gki), None, None),
        Ok(RootRoute {
            family: Family::KernelSU,
            provider: PipelineProvider::Magisk,
            version: VerChoice::Stable,
            gki: true
        })
    );
    assert_eq!(
        resolve_root_route(Some(Family::Skroot), None, None, None),
        Ok(RootRoute {
            family: Family::Skroot,
            provider: PipelineProvider::Skroot,
            version: VerChoice::Stable,
            gki: false
        })
    );
    assert_eq!(
        resolve_root_route(Some(Family::Magisk), Some(RootMode::Lkm), None, None),
        Err(RootSelectionError::ProviderMissing)
    );
    assert_eq!(
        resolve_root_route(Some(Family::Magisk), None, Some(Provider::MagiskForks), None),
        Err(RootSelectionError::VersionMissing)
    );
    let fork = resolve_root_route(
        Some(Family::Magisk),
        Some(RootMode::Lkm),
        Some(Provider::MagiskForks),
        Some(VerChoice::Nightly),
    )
    .unwrap();
    assert_eq!(fork.provider, PipelineProvider::MagiskFork);
    assert_eq!(fork.version, VerChoice::Nightly);
    assert_eq!(picked_file_use(fork), PickedFileUse::MagiskForkApk);
    let gki = resolve_root_route(Some(Family::APatch), Some(RootMode::Gki), None, None).unwrap();
    assert_eq!(picked_file_use(gki), PickedFileUse::GkiKernelZip);
    let ksu = resolve_root_route(
        Some(Family::KernelSU),
        Some(RootMode::Lkm),
        Some(Provider::SukiSU),
        Some(VerChoice::Stable),
    )
    .unwrap();
    assert_eq!(ksu.provider, PipelineProvider::SukiSU);
    assert_eq!(picked_file_use(ksu), PickedFileUse::Unused);
}

#[test]
fn root_inputs() {
    assert!(lkm_kernel_version_missing(Some(RootMode::Lkm), false));
    assert!(!lkm_kernel_version_missing(Some(RootMode::Lkm), true));
    assert!(!lkm_kernel_version_missing(Some(RootMode::Gki), false));
    assert!(!lkm_kernel_version_missing(None, false));
    assert_eq!(root_boot_image_name("boot"), "boot.img");
    assert_eq!(root_boot_image_name("init_boot"), "init_boot.img");
    assert_eq!(slot_partition("init_boot", "_b"), "init_boot_b");
    assert_eq!(slot_partition("vbmeta", "_a"), "vbmeta_a");
    assert!(retry_manager_install_after_reboot(false, false, true));
    assert!(!retry_manager_install_after_reboot(false, true, true));
    assert!(!retry_manager_install_after_reboot(true, false, true));
    assert!(!retry_manager_install_after_reboot(false, false, false));
    assert_eq!(unroot_boot_image(UnrootType::MagiskLkm), ("init_boot.img", "init_boot"));
    assert_eq!(unroot_boot_image(UnrootType::APatchGki), ("boot.img", "boot"));
}

#[test]
fn ota_commands() {
    assert_eq!(
        ota_packages(),
        ["com.lenovo.ota", "com.tblenovo.lenovowhatsnew", "com.lenovo.tbengine"]
    );
    assert_eq!(
        disable_settings_commands(),
        [
            "settings put global ota_disable_automatic_update 1",
            "settings put secure lenovo_ota_new_version_found 0"
        ]
    );
    assert_eq!(
        enable_settings_command(),
        "settings put global ota_disable_automatic_update 0"
    );
    assert_eq!(pm_clear_command("com.lenovo.ota"), "pm clear com.lenovo.ota");
    assert_eq!(
        pm_uninstall_command("com.lenovo.ota"),
        "pm uninstall -k --user 0 com.lenovo.ota"
    );
    assert_eq!(
        install_existing_command("com.lenovo.ota"),
        "cmd package install-existing com.lenovo.ota"
    );
    assert!(uninstall_succeeded("Success"));
    assert!(!uninstall_succeeded("Failure [not installed for 0]"));
    assert!(reinstall_succeeded("Package com.lenovo.ota installed for user: 0"));
    assert!(reinstall_succeeded("INSTALLED"));
    assert!(!reinstall_succeeded("Failure"));
}

#[test]
fn sysupdate_bridges() {
    assert!(reboot_fastboot_to_system_first(SysUpdateAction::Disable, ConnectionStatus::Fastboot));
    assert!(!reboot_fastboot_to_system_first(SysUpdateAction::Rescue, ConnectionStatus::Fastboot));
    assert!(!reboot_fastboot_to_system_first(SysUpdateAction::Enable, ConnectionStatus::Adb));
    assert!(wait_for_adb_when_missing(ConnectionStatus::Fastboot));
    assert!(!wait_for_adb_when_missing(ConnectionStatus::Edl));
}

#[test]
fn rescue_plans() {
    assert_eq!(rescue_region_label(RescueRegion::Prc), "PRC");
    assert_eq!(rescue_region_label(RescueRegion::Row), "ROW");
    let (prc, row) = rescue_region_patterns();
    assert_eq!(prc[0], (b".PRC".to_vec(), b".ROW".to_vec()));
    assert_eq!(prc[1], (b"IPRC".to_vec(), b"IROW".to_vec()));
    assert_eq!(row[0], (b".ROW".to_vec(), b".PRC".to_vec()));
    assert_eq!(row[1], (b"IROW".to_vec(), b"IPRC".to_vec()));
    assert_eq!(rescue_partition_name(RescueImage::VendorBoot, Slot::A), "vendor_boot_a");
    assert_eq!(rescue_partition_name(RescueImage::Vbmeta, Slot::B), "vbmeta_b");
}

#[test]
fn advanced_actions() {
    assert_eq!(advanced_route(AdvAction::ImageInfo), AdvRoute::RefuseDedicated);
    assert_eq!(advanced_route(AdvAction::DetectArb), AdvRoute::RefuseDedicated);
    assert_eq!(advanced_route(AdvAction::SimpleFlash), AdvRoute::UseWizard);
    assert_eq!(advanced_route(AdvAction::DumpPhysical), AdvRoute::UseWizard);
    assert_eq!(advanced_route(AdvAction::PatchArb), AdvRoute::FileWork);
    assert_eq!(advanced_route(AdvAction::ConvertXml), AdvRoute::FileWork);
    assert!(region_convert_input_ok(Some("VENDOR_BOOT.img")));
    assert!(!region_convert_input_ok(Some("vendor_boot_a.img")));
    assert!(!region_convert_input_ok(None));
    assert_eq!(country_image_names(), ["devinfo.img", "persist.img"]);
    assert_eq!(country_output_name("devinfo"), "devinfo_modified.img");
    assert_eq!(devinfo_patch_outcome(false, false), DevinfoPatchOutcome::ImagesMissing);
    assert_eq!(devinfo_patch_outcome(true, false), DevinfoPatchOutcome::AlreadyMatches);
    assert_eq!(devinfo_patch_outcome(true, true), DevinfoPatchOutcome::Written);
    assert!(arb_patch_refused(0));
    assert!(arb_patch_refused(1));
    assert!(!arb_patch_refused(2));
    assert_eq!(boot_index_patch("NONE"), BootIndexPatch::AddHashFooter);
    assert_eq!(boot_index_patch("SHA256_RSA4096"), BootIndexPatch::Resign);
    assert_eq!(vbmeta_rebuild_algorithm("NONE", "testkey_rsa2048"), "SHA256_RSA2048");
    assert_eq!(vbmeta_rebuild_algorithm("NONE", "testkey_rsa4096"), "SHA256_RSA4096");
    assert_eq!(
        vbmeta_rebuild_algorithm("SHA256_RSA4096", "testkey_rsa2048"),
        "SHA256_RSA4096"
    );
    assert_eq!(vbmeta_chain_candidates()[0], "dtbo.img");
    assert_eq!(vbmeta_chain_candidates()[11], "boot_b.img");
    assert!(chain_has_vendor_boot(&vec!["dtbo.img".to_string(), "vendor_boot_a.img".to_string()]));
    assert!(!chain_has_vendor_boot(&vec!["dtbo.img".to_string(), "boot.img".to_string()]));
}

#[test]
fn wizard_screens() {
    assert!(is_start_label("Start", "Start", "Dump"));
    assert!(is_start_label("Dump", "Start", "Dump"));
    assert!(!is_start_label("Next", "Start", "Dump"));
    assert!(wizard_can_advance(true, true, false, false));
    assert!(!wizard_can_advance(true, true, true, true));
    assert!(!wizard_can_advance(true, false, true, false));
    assert!(wizard_can_advance(true, false, true, true));
    assert!(!wizard_can_advance(false, false, false, true));
    assert!(!cross_region_selectable(true));
    assert!(country_code_selectable(true, "CN"));
    assert!(!country_code_selectable(true, "US"));
    assert!(country_code_selectable(false, "US"));
    assert!(!root_family_selectable(Family::Magisk, true));
    assert!(root_family_selectable(Family::KernelSU, true));
    assert!(!root_mode_selectable(RootMode::Lkm, true, false));
    assert!(!root_mode_selectable(RootMode::Gki, false, true));
    assert!(root_mode_selectable(RootMode::Gki, true, false));
    assert!(!rescue_selectable(Some(false), false));
    assert!(!rescue_selectable(None, true));
    assert!(rescue_selectable(None, false));
    assert!(cleanup_enabled(false, false, Some(10)));
    assert!(!cleanup_enabled(false, false, Some(0)));
    assert!(!cleanup_enabled(false, false, None));
    assert!(!cleanup_enabled(true, false, Some(10)));
    assert_eq!(device_portrait("tb320fc"), Portrait::Tb320fc);
    assert_eq!(device_portrait("TB710FU"), Portrait::Tb710fu);
    assert_eq!(device_portrait("TB330FU"), Portrait::GenericTablet);
}

#[test]
fn arb_index_field() {
    assert_eq!(parse_arb_index("1700000000"), Some(1700000000));
    assert_eq!(parse_arb_index("9999999999"), Some(9999999999));
    assert_eq!(parse_arb_index("+170000000"), Some(170000000));
    assert_eq!(parse_arb_index("170000000"), None);
    assert_eq!(parse_arb_index("17000000000"), None);
    assert_eq!(parse_arb_index("17000a0000"), None);
    assert_eq!(parse_arb_index("-170000000"), None);
    assert_eq!(parse_arb_index("1+70000000"), None);
    for s in ["1700000000", "+170000000", "0000000000", "12345x7890", "-123456789"] {
        assert_eq!(
            parse_arb_index(s),
            if s.len() == 10 { s.parse::<u64>().ok() } else { None }
        );
    }
}

#[test]
fn step_bar_and_driver_banner() {
    assert_eq!(step_marker(0, 2), StepMarker::Done);
    assert_eq!(step_marker(2, 2), StepMarker::Active);
    assert_eq!(step_marker(3, 2), StepMarker::Upcoming);
    assert_eq!(step_dot_label(0, 2), "\u{2713}");
    assert_eq!(step_dot_label(2, 2), "3");
    assert_eq!(step_dot_label(11, 2), "12");
    assert!(step_connector_completed(2, 2));
    assert!(!step_connector_completed(3, 2));
    assert_eq!(
        driver_banner(Some(DriverIssue::UdevRulesStale), Some(false), false),
        DriverBanner { needs_network: false, install_shown: true, install_enabled: true, offline_hint: false }
    );
    assert_eq!(
        driver_banner(None, Some(false), false),
        DriverBanner { needs_network: true, install_shown: true, install_enabled: false, offline_hint: true }
    );
    assert_eq!(
        driver_banner(Some(DriverIssue::KernelDriverMissing), None, true),
        DriverBanner { needs_network: true, install_shown: true, install_enabled: false, offline_hint: false }
    );
    assert_eq!(
        driver_banner(Some(DriverIssue::KernelDriverUnsupported), Some(false), false),
        DriverBanner { needs_network: false, install_shown: false, install_enabled: false, offline_hint: false }
    );
}

#[test]
fn release_asset_and_edl_entry() {
    assert!(asset_name_matches("GBL_ROOT_CANOE_PRC_ARB.efi", "_prc_arb.efi"));
    assert!(!asset_name_matches("gbl_prc.efi", "_prc_arb.efi"));
    assert!(!asset_name_matches("gbl_prc.efi", "_PRC.efi"));
    assert!(asset_name_matches("x", ""));
    assert_eq!(edl_entry_action(ConnectionStatus::Edl), EdlEntryAction::AlreadyEdl);
    assert_eq!(edl_entry_action(ConnectionStatus::Adb), EdlEntryAction::AdbReboot);
    assert_eq!(edl_entry_action(ConnectionStatus::AdbRecovery), EdlEntryAction::AdbReboot);
    assert_eq!(
        edl_entry_action(ConnectionStatus::Fastboot),
        EdlEntryAction::FastbootRebootThenAdb
    );
    assert_eq!(edl_entry_action(ConnectionStatus::Disconnected), EdlEntryAction::ManualWait);
    assert_eq!(edl_entry_action(ConnectionStatus::AdbUnauthorized), EdlEntryAction::ManualWait);
}
