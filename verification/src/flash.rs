//! Decisions of the full firmware flash: the gates checked before the
//! device is sent to EDL, the handling of fixed-key ("key2") firmware, the
//! per-location rollback bypass and the TB323FU `efisp` GBL.

use vstd::prelude::*;
use crate::model::{fingerprint_token_match, token_match_spec};

verus! {

/// Rollback-protection bypass mode chosen for a flash.
#[derive(Debug, Clone, Copy, PartialEq, Eq, Structural)]
pub enum RollbackMode {
    Off,
    Auto,
    On,
}

/// Class of an AVB signing key, as classified from its public key digest.
#[derive(Debug, Clone, Copy, PartialEq, Eq, Structural)]
pub enum KeyClass {
    Unknown,
    Fixed,
    Testkey,
}

/// After a flash that never reached EDL is aborted, reboot a device left in
/// Fastboot back to system, unless the flash started in Fastboot.
#[verifier::allow_in_spec]
pub fn should_reboot_fastboot_to_system_after_pre_edl_abort(started_in_fastboot: bool) -> bool
    returns
        !started_in_fastboot,

{
    !started_in_fastboot
}

/// The target firmware is TB323FU firmware (by its fingerprint): the GBL
/// and rollback work follow the target firmware, never the connected
/// device.
pub fn target_is_tb323fu(firmware_fp: Option<&str>) -> (r: bool)
    ensures
        r == (match firmware_fp {
            Some(f) => token_match_spec(f@, "TB323FU"@),
            None => false,
        }),
{
    match firmware_fp {
        Some(f) => fingerprint_token_match(f, "TB323FU"),
        None => false,
    }
}

/// TB323FU keeps the region boot-chain conversion off (it provisions a GBL
/// instead); detected from the firmware fingerprint or the device model.
pub fn tb323fu_skips_region(firmware_fp: Option<&str>, device_model: &str) -> (r: bool)
    ensures
        r == ((match firmware_fp {
            Some(f) => token_match_spec(f@, "TB323FU"@),
            None => false,
        }) || token_match_spec(device_model@, "TB323FU"@)),
{
    target_is_tb323fu(firmware_fp) || fingerprint_token_match(device_model, "TB323FU")
}

/// The rollback mode the flash runs with: TB323FU firmware never runs a
/// blind `On` (which bumps even matching indices); it is demoted to `Auto`.
#[verifier::allow_in_spec]
pub fn effective_rollback_mode(target_is_tb323fu: bool, mode: RollbackMode) -> RollbackMode
    returns
        (if target_is_tb323fu && mode == RollbackMode::On {
            RollbackMode::Auto
        } else {
            mode
        }),

{
    if target_is_tb323fu && mode == RollbackMode::On {
        RollbackMode::Auto
    } else {
        mode
    }
}

/// Why a flash is aborted before the device is sent to EDL.
#[derive(Debug, Clone, Copy, PartialEq, Eq, Structural)]
pub enum PreEdlAbort {
    /// Rollback bypass `On` with no Fastboot variables to read the device
    /// index from, on a start other than EDL.
    RollbackOnFastbootUnreachable,
    /// The firmware's `vbmeta_system` signing key is not recognised.
    FirmwareKeyUnknown,
    /// Fixed-key firmware with a cross-region conversion (not supported
    /// outside TB323FU).
    FixedKeyCrossRegion,
}

/// The gates checked, in this order, before a flash leaves for EDL.
#[verifier::allow_in_spec]
pub fn pre_edl_gate(
    mode: RollbackMode,
    fastboot_reachable: bool,
    edl_start: bool,
    firmware_key: KeyClass,
    modify_region: bool,
    target_is_tb323fu: bool,
) -> Result<(), PreEdlAbort>
    returns
        (if mode == RollbackMode::On && !fastboot_reachable && !edl_start {
            Err(PreEdlAbort::RollbackOnFastbootUnreachable)
        } else if firmware_key == KeyClass::Unknown {
            Err(PreEdlAbort::FirmwareKeyUnknown)
        } else if firmware_key == KeyClass::Fixed && modify_region && !target_is_tb323fu {
            Err(PreEdlAbort::FixedKeyCrossRegion)
        } else {
            Ok(())
        }),

{
    if mode == RollbackMode::On && !fastboot_reachable && !edl_start {
        Err(PreEdlAbort::RollbackOnFastbootUnreachable)
    } else if firmware_key == KeyClass::Unknown {
        Err(PreEdlAbort::FirmwareKeyUnknown)
    } else if firmware_key == KeyClass::Fixed && modify_region && !target_is_tb323fu {
        Err(PreEdlAbort::FixedKeyCrossRegion)
    } else {
        Ok(())
    }
}

/// Hardware region of the device.
#[derive(Debug, Clone, Copy, PartialEq, Eq, Structural)]
pub enum DeviceRegion {
    Prc,
    Row,
}

/// What the flash does about region conversion before EDL.
#[derive(Debug, Clone, Copy, PartialEq, Eq, Structural)]
pub enum RegionStep {
    /// No conversion asked for, or TB323FU (which provisions a GBL instead).
    NotRequested,
    /// Conversion asked for but `vendor_boot.img` / `vbmeta.img` missing:
    /// logged and skipped.
    ImagesMissing,
    /// Conversion asked for without a device region: abort.
    DeviceRegionMissing,
    /// Build the converted boot chain for a device of this region.
    Convert(DeviceRegion),
}

/// Region-conversion step of the flash.
#[verifier::allow_in_spec]
pub fn region_step(
    modify_region: bool,
    tb323fu_skip_region: bool,
    has_vendor_boot: bool,
    has_vbmeta: bool,
    device_region: Option<DeviceRegion>,
) -> RegionStep
    returns
        (if !modify_region || tb323fu_skip_region {
            RegionStep::NotRequested
        } else if !(has_vendor_boot && has_vbmeta) {
            RegionStep::ImagesMissing
        } else {
            match device_region {
                Some(d) => RegionStep::Convert(d),
                None => RegionStep::DeviceRegionMissing,
            }
        }),

{
    if !modify_region || tb323fu_skip_region {
        RegionStep::NotRequested
    } else if !(has_vendor_boot && has_vbmeta) {
        RegionStep::ImagesMissing
    } else {
        match device_region {
            Some(d) => RegionStep::Convert(d),
            None => RegionStep::DeviceRegionMissing,
        }
    }
}

/// How a fixed-key ("key2") firmware is handled, from the key class of the
/// device's active-slot `vbmeta_system`.
#[derive(Debug, Clone, Copy, PartialEq, Eq, Structural)]
pub enum FixedFirmwareDevicePolicy {
    AbortUnknown,
    KeepFixed,
    ResignTestkey,
}

/// Policy for fixed-key firmware from the device key class. Any testkey
/// device takes the re-sign path, whatever its exact testkey size.
#[verifier::allow_in_spec]
pub fn fixed_firmware_device_policy(device_vbs_class: KeyClass) -> FixedFirmwareDevicePolicy
    returns
        (match device_vbs_class {
            KeyClass::Unknown => FixedFirmwareDevicePolicy::AbortUnknown,
            KeyClass::Fixed => FixedFirmwareDevicePolicy::KeepFixed,
            KeyClass::Testkey => FixedFirmwareDevicePolicy::ResignTestkey,
        }),

{
    match device_vbs_class {
        KeyClass::Unknown => FixedFirmwareDevicePolicy::AbortUnknown,
        KeyClass::Fixed => FixedFirmwareDevicePolicy::KeepFixed,
        KeyClass::Testkey => FixedFirmwareDevicePolicy::ResignTestkey,
    }
}

/// A fixed-key firmware on a fixed-key device installs as-is only when it
/// stays in region and downgrades no location: `true` means the install is
/// refused.
#[verifier::allow_in_spec]
pub fn fixed_install_refused(
    modify_region: bool,
    firmware_boot_index: u64,
    firmware_vbs_index: u64,
    boot_floor: u64,
    vbs_floor: u64,
) -> bool
    returns
        (modify_region || firmware_boot_index < boot_floor || firmware_vbs_index < vbs_floor),

{
    let downgrade = firmware_boot_index < boot_floor || firmware_vbs_index < vbs_floor;
    modify_region || downgrade
}

/// Which rollback-bypass path the flash takes once the mode is settled.
#[derive(Debug, Clone, Copy, PartialEq, Eq, Structural)]
pub enum ArbPath {
    /// Bypass off: flash the firmware's images as they are.
    Bypassed,
    /// TB323FU: re-sign the AVB partitions to the testkey chain as needed.
    Tb323fuOverlays,
    /// Other models: patch `boot` and `vbmeta_system` up to their floors.
    PerLocation,
}

#[verifier::allow_in_spec]
pub fn arb_path(mode: RollbackMode, target_is_tb323fu: bool) -> ArbPath
    returns
        (if mode == RollbackMode::Off {
            ArbPath::Bypassed
        } else if target_is_tb323fu {
            ArbPath::Tb323fuOverlays
        } else {
            ArbPath::PerLocation
        }),

{
    if mode == RollbackMode::Off {
        ArbPath::Bypassed
    } else if target_is_tb323fu {
        ArbPath::Tb323fuOverlays
    } else {
        ArbPath::PerLocation
    }
}

/// The per-location path needs the device index read over EDL when no
/// per-location floors were read at the EDL start, Fastboot gave no index,
/// and the model is rollback-protected.
#[verifier::allow_in_spec]
pub fn needs_edl_index_read(
    edl_floors: Option<(u64, u64)>,
    device_index: Option<u64>,
    rollback_protected_model: bool,
) -> bool
    returns
        (edl_floors is None && device_index is None && rollback_protected_model),

{
    edl_floors.is_none() && device_index.is_none() && rollback_protected_model
}

/// Floors applied to `boot` and `vbmeta_system`: each location's own floor
/// when read at the EDL start, else the single device index for both.
#[verifier::allow_in_spec]
pub fn location_floors(edl_floors: Option<(u64, u64)>, device_index: Option<u64>) -> (
    Option<u64>,
    Option<u64>,
)
    returns
        (match edl_floors {
            Some((b, v)) => (Some(b), Some(v)),
            None => (device_index, device_index),
        }),

{
    match edl_floors {
        Some((b, v)) => (Some(b), Some(v)),
        None => (device_index, device_index),
    }
}

/// Whether the signing key of an image is in the key map.
#[derive(Debug, Clone, Copy, PartialEq, Eq, Structural)]
pub enum KeyLookup {
    /// A stock key of the key map.
    Known,
    /// The image is unsigned.
    Unsigned,
    /// Signed with a key the map does not hold.
    Unrecognized,
}

/// What the per-location rollback bypass does with one AVB location.
#[derive(Debug, Clone, Copy, PartialEq, Eq, Structural)]
pub enum ArbLocationStep {
    /// The image index already satisfies the floor.
    Keep,
    /// The device floor of this location is unknown: skip it.
    SkipUnknownDevice,
    /// The image is signed by an unknown key: reset and abort the flash.
    AbortUnknownKey,
    /// Re-sign the image with the mapped key at this rollback index.
    Resign(u64),
    /// Add a hash footer at this rollback index (unsigned chained image).
    AddHashFooter(u64),
    /// Nothing to re-sign with: log and skip.
    SkipUnsigned,
}

/// What the per-location rollback bypass does with one location (`boot`,
/// or `vbmeta_system` when `is_vbmeta`): `needs_patch` is the rollback
/// analysis of the image against `floor`; `algorithm_none` tells whether
/// the image's AVB algorithm is `NONE`. `vbmeta` images are always
/// re-signed, never footered.
#[verifier::allow_in_spec]
pub fn arb_step_for(
    is_vbmeta: bool,
    needs_patch: bool,
    floor: Option<u64>,
    algorithm_none: bool,
    key: KeyLookup,
) -> ArbLocationStep
    returns
        (if !needs_patch {
            ArbLocationStep::Keep
        } else {
            match floor {
                None => ArbLocationStep::SkipUnknownDevice,
                Some(t) => if key == KeyLookup::Unrecognized {
                    ArbLocationStep::AbortUnknownKey
                } else if is_vbmeta {
                    if key == KeyLookup::Known {
                        ArbLocationStep::Resign(t)
                    } else {
                        ArbLocationStep::SkipUnsigned
                    }
                } else if algorithm_none {
                    ArbLocationStep::AddHashFooter(t)
                } else if key == KeyLookup::Known {
                    ArbLocationStep::Resign(t)
                } else {
                    ArbLocationStep::SkipUnsigned
                },
            }
        }),
{
    if !needs_patch {
        ArbLocationStep::Keep
    } else {
        match floor {
            None => ArbLocationStep::SkipUnknownDevice,
            Some(t) => if key == KeyLookup::Unrecognized {
                ArbLocationStep::AbortUnknownKey
            } else if is_vbmeta {
                if key == KeyLookup::Known {
                    ArbLocationStep::Resign(t)
                } else {
                    ArbLocationStep::SkipUnsigned
                }
            } else if algorithm_none {
                ArbLocationStep::AddHashFooter(t)
            } else if key == KeyLookup::Known {
                ArbLocationStep::Resign(t)
            } else {
                ArbLocationStep::SkipUnsigned
            },
        }
    }
}

/// TB323FU fetches a GBL for `efisp` when a downgrade re-signed the chain
/// (the `_arb` variant) or for a cross-region install (the normal one).
#[verifier::allow_in_spec]
pub fn gbl_fetch_needed(target_is_tb323fu: bool, arb_need: bool, modify_region: bool) -> bool
    returns
        target_is_tb323fu && (arb_need || modify_region),
{
    target_is_tb323fu && (arb_need || modify_region)
}

/// What happens to `efisp` after the firmware and overlays are written.
#[derive(Debug, Clone, Copy, PartialEq, Eq, Structural)]
pub enum EfispStep {
    /// Not TB323FU, or nothing to change: leave `efisp` as it is.
    Untouched,
    /// Flash the fetched GBL; a failure is fatal when a re-signed chain
    /// depends on it, and only logged otherwise.
    Flash { fatal_on_failure: bool },
    /// A re-signed chain needs the `_arb` GBL but none was fetched: abort.
    AbortArbGblMissing,
    /// Same-region wipe with no downgrade: erase the GBL.
    Erase,
}

/// What happens to `efisp` after the writes ([`efisp_step_spec`]).
#[verifier::allow_in_spec]
pub fn efisp_step(
    target_is_tb323fu: bool,
    gbl_fetched: bool,
    arb_need: bool,
    wipe: bool,
    modify_region: bool,
) -> EfispStep
    returns
        efisp_step_spec(target_is_tb323fu, gbl_fetched, arb_need, wipe, modify_region),

{
    if !target_is_tb323fu {
        EfispStep::Untouched
    } else if gbl_fetched {
        EfispStep::Flash { fatal_on_failure: arb_need }
    } else if arb_need {
        EfispStep::AbortArbGblMissing
    } else if wipe && !modify_region {
        EfispStep::Erase
    } else {
        EfispStep::Untouched
    }
}

/// `efisp` after the writes: a fetched GBL is flashed (fatal on failure
/// when a re-signed chain depends on it); a missing `_arb` GBL aborts; a
/// same-region wipe erases the GBL; anything else leaves it.
pub open spec fn efisp_step_spec(
    target_is_tb323fu: bool,
    gbl_fetched: bool,
    arb_need: bool,
    wipe: bool,
    modify_region: bool,
) -> EfispStep {
    if !target_is_tb323fu {
        EfispStep::Untouched
    } else if gbl_fetched {
        EfispStep::Flash { fatal_on_failure: arb_need }
    } else if arb_need {
        EfispStep::AbortArbGblMissing
    } else if wipe && !modify_region {
        EfispStep::Erase
    } else {
        EfispStep::Untouched
    }
}

/// Law: a TB323FU install whose chain was re-signed for a downgrade always
/// fetches the `_arb` GBL, and then flashes it with a failure being fatal.
pub proof fn lemma_arb_chain_keeps_its_gbl(wipe: bool, modify_region: bool)
    ensures
        gbl_fetch_needed(true, true, modify_region),
        efisp_step_spec(true, gbl_fetch_needed(true, true, modify_region), true, wipe, modify_region)
            == (EfispStep::Flash { fatal_on_failure: true }),
{
}

} // verus!
