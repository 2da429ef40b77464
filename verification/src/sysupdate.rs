//! System-update workflow: disabling and re-enabling the Lenovo OTA
//! packages over ADB, and the Boot Recovery (rescue) plan over EDL.

use vstd::prelude::*;
use vstd::string::*;
use crate::device::ConnectionStatus;
use crate::rollback::Slot;
use crate::text::{contains, contains_ignore_ascii_case, contains_ignore_ascii_case_spec, contains_spec};

verus! {

/// What the System Updates wizard does.
#[derive(Debug, Clone, Copy, PartialEq, Eq, Structural)]
pub enum SysUpdateAction {
    Disable,
    Enable,
    Rescue,
}

/// The Lenovo OTA packages that Disable removes and Enable restores.
pub open spec fn ota_packages_spec() -> Seq<Seq<char>> {
    seq!["com.lenovo.ota"@, "com.tblenovo.lenovowhatsnew"@, "com.lenovo.tbengine"@]
}

pub fn ota_packages() -> (r: [&'static str; 3])
    ensures
        r@.map_values(|p: &str| p@) == ota_packages_spec(),
{
    let r = ["com.lenovo.ota", "com.tblenovo.lenovowhatsnew", "com.lenovo.tbengine"];
    assert(r@.map_values(|p: &str| p@) =~= ota_packages_spec());
    r
}

/// Settings written by Disable before the packages are removed.
pub fn disable_settings_commands() -> (r: [&'static str; 2])
    ensures
        r@[0]@ == "settings put global ota_disable_automatic_update 1"@,
        r@[1]@ == "settings put secure lenovo_ota_new_version_found 0"@,
{
    [
        "settings put global ota_disable_automatic_update 1",
        "settings put secure lenovo_ota_new_version_found 0",
    ]
}

/// Setting written by Enable before the packages are restored.
pub fn enable_settings_command() -> (r: &'static str)
    ensures
        r@ == "settings put global ota_disable_automatic_update 0"@,
{
    "settings put global ota_disable_automatic_update 0"
}

/// `pm clear <package>`.
pub fn pm_clear_command(package: &str) -> (r: String)
    ensures
        r@ == "pm clear "@ + package@,
{
    let mut r = String::from_str("pm clear ");
    r.append(package);
    r
}

/// `pm uninstall -k --user 0 <package>`.
pub fn pm_uninstall_command(package: &str) -> (r: String)
    ensures
        r@ == "pm uninstall -k --user 0 "@ + package@,
{
    let mut r = String::from_str("pm uninstall -k --user 0 ");
    r.append(package);
    r
}

/// `cmd package install-existing <package>`.
pub fn install_existing_command(package: &str) -> (r: String)
    ensures
        r@ == "cmd package install-existing "@ + package@,
{
    let mut r = String::from_str("cmd package install-existing ");
    r.append(package);
    r
}

/// An uninstall succeeded when the shell output contains `Success`.
pub fn uninstall_succeeded(output: &str) -> (r: bool)
    ensures
        r == contains_spec(output@, "Success"@),
{
    contains(output, "Success")
}

/// A reinstall succeeded when the lower-cased shell output contains
/// `installed`. (Only ASCII letters can lower-case to the letters of
/// `installed` as a run, so ASCII case folding decides it the same way.)
pub fn reinstall_succeeded(output: &str) -> (r: bool)
    ensures
        r == contains_ignore_ascii_case_spec(output@, "installed"@),
{
    contains_ignore_ascii_case(output, "installed")
}

/// Disable / Enable need an Android shell: from Fastboot the device is
/// first rebooted to system (Rescue goes to EDL instead).
pub fn reboot_fastboot_to_system_first(action: SysUpdateAction, conn: ConnectionStatus) -> (r: bool)
    ensures
        r == (action != SysUpdateAction::Rescue && conn == ConnectionStatus::Fastboot),
{
    action != SysUpdateAction::Rescue && conn == ConnectionStatus::Fastboot
}

/// With no ADB device at hand, Disable / Enable wait for one only when the
/// device was just rebooted out of Fastboot; otherwise they fail.
pub fn wait_for_adb_when_missing(conn: ConnectionStatus) -> (r: bool)
    ensures
        r == (conn == ConnectionStatus::Fastboot),
{
    conn == ConnectionStatus::Fastboot
}

/// LUN that holds `vendor_boot` and `vbmeta` for Boot Recovery.
pub const RESCUE_PARTITIONS_LUN: u8 = 0;

/// Target region of a Boot Recovery.
#[derive(Debug, Clone, Copy, PartialEq, Eq, Structural)]
pub enum RescueRegion {
    Prc,
    Row,
}

pub fn rescue_region_label(region: RescueRegion) -> (r: &'static str)
    ensures
        r@ == (match region {
            RescueRegion::Prc => "PRC"@,
            RescueRegion::Row => "ROW"@,
        }),
{
    match region {
        RescueRegion::Prc => "PRC",
        RescueRegion::Row => "ROW",
    }
}

/// The region markers rewritten in `vendor_boot`: for a PRC source the
/// pairs (`.PRC` → `.ROW`, `IPRC` → `IROW`), for a ROW source the reverse.
pub fn rescue_region_patterns() -> (r: (Vec<(Vec<u8>, Vec<u8>)>, Vec<(Vec<u8>, Vec<u8>)>))
    ensures
        r.0@.len() == 2,
        r.0@[0].0@ == seq![0x2Eu8, 0x50, 0x52, 0x43],
        r.0@[0].1@ == seq![0x2Eu8, 0x52, 0x4F, 0x57],
        r.0@[1].0@ == seq![0x49u8, 0x50, 0x52, 0x43],
        r.0@[1].1@ == seq![0x49u8, 0x52, 0x4F, 0x57],
        r.1@.len() == 2,
        r.1@[0].0@ == r.0@[0].1@,
        r.1@[0].1@ == r.0@[0].0@,
        r.1@[1].0@ == r.0@[1].1@,
        r.1@[1].1@ == r.0@[1].0@,
{
    let prc_dot: Vec<u8> = vec![0x2E, 0x50, 0x52, 0x43];
    let prc_i: Vec<u8> = vec![0x49, 0x50, 0x52, 0x43];
    let row_dot: Vec<u8> = vec![0x2E, 0x52, 0x4F, 0x57];
    let row_i: Vec<u8> = vec![0x49, 0x52, 0x4F, 0x57];
    let prc_patterns = vec![(prc_dot.clone(), row_dot.clone()), (prc_i.clone(), row_i.clone())];
    let row_patterns = vec![(row_dot, prc_dot), (row_i, prc_i)];
    (prc_patterns, row_patterns)
}

/// The two images Boot Recovery dumps per slot.
#[derive(Debug, Clone, Copy, PartialEq, Eq, Structural)]
pub enum RescueImage {
    VendorBoot,
    Vbmeta,
}

/// Name of a rescue partition: `vendor_boot_<slot>` or `vbmeta_<slot>`.
pub open spec fn rescue_partition_spec(image: RescueImage, slot: Slot) -> Seq<char> {
    (match image {
        RescueImage::VendorBoot => "vendor_boot_"@,
        RescueImage::Vbmeta => "vbmeta_"@,
    }) + (match slot {
        Slot::A => "a"@,
        Slot::B => "b"@,
    })
}

pub fn rescue_partition_name(image: RescueImage, slot: Slot) -> (r: String)
    ensures
        r@ == rescue_partition_spec(image, slot),
{
    let mut r = String::from_str(
        match image {
            RescueImage::VendorBoot => "vendor_boot_",
            RescueImage::Vbmeta => "vbmeta_",
        },
    );
    r.append(
        match slot {
            Slot::A => "a",
            Slot::B => "b",
        },
    );
    r
}

} // verus!
