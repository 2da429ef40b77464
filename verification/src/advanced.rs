//! Advanced single-file operations: which action runs here, the guards of
//! the rollback-index patch, and the vbmeta rebuild inputs.

use vstd::prelude::*;
use vstd::string::*;
use crate::text::{contains, contains_spec, eq_ignore_ascii_case, eq_ignore_ascii_case_spec, str_eq};
use crate::text::{starts_with, starts_with_spec, string_views};
use crate::flash::DeviceRegion;

verus! {

/// Actions of the Advanced menu.
#[derive(Debug, Clone, Copy, PartialEq, Eq, Structural)]
pub enum AdvAction {
    ImageInfo,
    ConvertXml,
    DetectArb,
    FlashPartitions,
    DumpPartitions,
    FlashPhysical,
    DumpPhysical,
    SimpleFlash,
    RegionConvert,
    PatchDevinfo,
    PatchArb,
    RebuildVbmeta,
}

/// How the single-file worker treats an action.
#[derive(Debug, Clone, Copy, PartialEq, Eq, Structural)]
pub enum AdvRoute {
    /// Image Info and Detect ARB run in their own workers: reaching the
    /// file worker with them is an error.
    RefuseDedicated,
    /// Device transfers have their own wizards: only a notice is logged.
    UseWizard,
    /// Processed here.
    FileWork,
}

pub fn advanced_route(action: AdvAction) -> (r: AdvRoute)
    ensures
        r == (match action {
            AdvAction::ImageInfo | AdvAction::DetectArb => AdvRoute::RefuseDedicated,
            AdvAction::FlashPartitions | AdvAction::DumpPartitions | AdvAction::FlashPhysical
            | AdvAction::DumpPhysical | AdvAction::SimpleFlash => AdvRoute::UseWizard,
            _ => AdvRoute::FileWork,
        }),
{
    match action {
        AdvAction::ImageInfo | AdvAction::DetectArb => AdvRoute::RefuseDedicated,
        AdvAction::FlashPartitions | AdvAction::DumpPartitions | AdvAction::FlashPhysical
        | AdvAction::DumpPhysical | AdvAction::SimpleFlash => AdvRoute::UseWizard,
        _ => AdvRoute::FileWork,
    }
}

/// Region conversion takes the firmware's `vendor_boot.img` (file name in
/// any ASCII case).
pub fn region_convert_input_ok(file_name: Option<&str>) -> (r: bool)
    ensures
        r == (match file_name {
            Some(n) => eq_ignore_ascii_case_spec(n@, "vendor_boot.img"@),
            None => false,
        }),
{
    match file_name {
        Some(n) => eq_ignore_ascii_case(n, "vendor_boot.img"),
        None => false,
    }
}

/// The images holding the country code, looked for in the picked folder.
pub fn country_image_names() -> (r: [&'static str; 2])
    ensures
        r@[0]@ == "devinfo.img"@,
        r@[1]@ == "persist.img"@,
{
    ["devinfo.img", "persist.img"]
}

/// Output name of a patched country image: `<stem>_modified.img`.
pub fn country_output_name(stem: &str) -> (r: String)
    ensures
        r@ == stem@ + "_modified.img"@,
{
    let mut r = String::from_str(stem);
    r.append("_modified.img");
    r
}

/// Outcome of the country patch over the folder.
#[derive(Debug, Clone, Copy, PartialEq, Eq, Structural)]
pub enum DevinfoPatchOutcome {
    /// Neither image exists in the folder: error.
    ImagesMissing,
    /// Something was found but nothing rewritten: the code already matches.
    AlreadyMatches,
    /// At least one image was written.
    Written,
}

pub fn devinfo_patch_outcome(any_found: bool, any_written: bool) -> (r: DevinfoPatchOutcome)
    ensures
        r == (if !any_found {
            DevinfoPatchOutcome::ImagesMissing
        } else if !any_written {
            DevinfoPatchOutcome::AlreadyMatches
        } else {
            DevinfoPatchOutcome::Written
        }),
{
    if !any_found {
        DevinfoPatchOutcome::ImagesMissing
    } else if !any_written {
        DevinfoPatchOutcome::AlreadyMatches
    } else {
        DevinfoPatchOutcome::Written
    }
}

/// The rollback-index patch refuses an image whose index is 0 or 1.
pub fn arb_patch_refused(image_rollback_index: u64) -> (r: bool)
    ensures
        r == (image_rollback_index <= 1),
{
    image_rollback_index <= 1
}

/// How `boot.img` takes its new rollback index: an unsigned image
/// (algorithm `NONE`) gets a hash footer, a signed one is re-signed.
/// (`vbmeta_system.img` is always re-signed.)
#[derive(Debug, Clone, Copy, PartialEq, Eq, Structural)]
pub enum BootIndexPatch {
    AddHashFooter,
    Resign,
}

pub fn boot_index_patch(algorithm: &str) -> (r: BootIndexPatch)
    ensures
        r == (if algorithm@ == "NONE"@ {
            BootIndexPatch::AddHashFooter
        } else {
            BootIndexPatch::Resign
        }),
{
    if str_eq(algorithm, "NONE") {
        BootIndexPatch::AddHashFooter
    } else {
        BootIndexPatch::Resign
    }
}

/// Algorithm for a vbmeta rebuild: the original's, or for an unsigned
/// original (`NONE`) the one of the resolved key (`SHA256_RSA2048` when the
/// key spec names 2048, else `SHA256_RSA4096`).
pub fn vbmeta_rebuild_algorithm(algorithm: &str, key_spec: &str) -> (r: String)
    ensures
        r@ == (if algorithm@ == "NONE"@ {
            if contains_spec(key_spec@, "2048"@) {
                "SHA256_RSA2048"@
            } else {
                "SHA256_RSA4096"@
            }
        } else {
            algorithm@
        }),
{
    if str_eq(algorithm, "NONE") {
        if contains(key_spec, "2048") {
            String::from_str("SHA256_RSA2048")
        } else {
            String::from_str("SHA256_RSA4096")
        }
    } else {
        String::from_str(algorithm)
    }
}

/// The chained images a vbmeta rebuild looks for beside the vbmeta, in
/// this order.
pub open spec fn chain_candidates_spec() -> Seq<Seq<char>> {
    seq![
        "dtbo.img"@,
        "dtbo_a.img"@,
        "dtbo_b.img"@,
        "init_boot.img"@,
        "init_boot_a.img"@,
        "init_boot_b.img"@,
        "vendor_boot.img"@,
        "vendor_boot_a.img"@,
        "vendor_boot_b.img"@,
        "boot.img"@,
        "boot_a.img"@,
        "boot_b.img"@,
    ]
}

pub fn vbmeta_chain_candidates() -> (r: [&'static str; 12])
    ensures
        r@.map_values(|n: &str| n@) == chain_candidates_spec(),
{
    let r = [
        "dtbo.img",
        "dtbo_a.img",
        "dtbo_b.img",
        "init_boot.img",
        "init_boot_a.img",
        "init_boot_b.img",
        "vendor_boot.img",
        "vendor_boot_a.img",
        "vendor_boot_b.img",
        "boot.img",
        "boot_a.img",
        "boot_b.img",
    ];
    assert(r@.map_values(|n: &str| n@) =~= chain_candidates_spec());
    r
}

/// A rebuild that chains a `vendor_boot*` image gets a warning first.
pub fn chain_has_vendor_boot(names: &Vec<String>) -> (r: bool)
    ensures
        r == exists|i: int|
            0 <= i < names@.len() && starts_with_spec(#[trigger] string_views(names@)[i], "vendor_boot"@),
{
    let mut i: usize = 0;
    while i < names.len()
        invariant
            i <= names.len(),
            forall|j: int|
                0 <= j < i ==> !starts_with_spec(#[trigger] string_views(names@)[j], "vendor_boot"@),
        decreases names.len() - i,
    {
        if starts_with(names[i].as_str(), "vendor_boot") {
            assert(starts_with_spec(string_views(names@)[i as int], "vendor_boot"@));
            return true;
        }
        i += 1;
    }
    false
}

/// One of the two images of the rollback-index patch.
#[derive(Debug, Clone, Copy, PartialEq, Eq, Structural)]
pub enum ArbImage {
    Boot,
    VbmetaSystem,
}

/// What inspecting an AVB image of the rollback-index patch found.
#[derive(Debug, Clone, Copy, PartialEq, Eq, Structural)]
pub struct ArbImageFacts {
    pub rollback_index: u64,
    /// The image's AVB algorithm is `NONE`.
    pub algorithm_none: bool,
    /// Its signing key is in the key map.
    pub key_known: bool,
}

/// What inspecting the `vbmeta` to rebuild found.
#[derive(Debug, Clone, Copy, PartialEq, Eq, Structural)]
pub struct VbmetaFacts {
    pub algorithm_none: bool,
    pub key_known: bool,
}

/// What the single-file worker has gathered about its input.
#[derive(Debug, Clone, Copy, PartialEq, Eq, Structural)]
pub struct AdvInputs {
    /// Number of `.x` files in the input folder, `None` when it cannot be read.
    pub x_files: Option<usize>,
    pub region_target: Option<DeviceRegion>,
    /// The input is named `vendor_boot.img` (any ASCII case).
    pub input_is_vendor_boot: bool,
    pub sibling_vbmeta_is_file: bool,
    pub country_given: bool,
    pub input_is_dir: bool,
    pub arb_target: Option<u64>,
    pub boot_is_file: bool,
    pub vbmeta_system_is_file: bool,
    /// Inspection of `boot.img` / `vbmeta_system.img`; `None` when it failed.
    pub boot: Option<ArbImageFacts>,
    pub vbmeta_system: Option<ArbImageFacts>,
    /// Inspection of the `vbmeta` to rebuild; `None` when it failed.
    pub vbmeta: Option<VbmetaFacts>,
}

/// Why the single-file worker refuses to run.
#[derive(Debug, Clone, Copy, PartialEq, Eq, Structural)]
pub enum AdvError {
    ImageInfoDedicated,
    DetectArbDedicated,
    ReadDirFailed,
    NoXFiles,
    RegionTargetMissing,
    VendorBootExpected,
    VbmetaMissing,
    CountryTargetMissing,
    CountryFolderExpected,
    ArbTargetMissing,
    ArbImageMissing(ArbImage),
    ArbInspectFailed(ArbImage),
    ArbRollbackRefused(ArbImage),
    SigningKeyUnknown(ArbImage),
    VbmetaInspectFailed,
    VbmetaKeyUnknown,
}

/// The work the single-file worker then does.
#[derive(Debug, Clone, Copy, PartialEq, Eq, Structural)]
pub enum AdvPlan {
    /// A device transfer: only a notice pointing to its wizard.
    Notice,
    /// Decrypt this many `.x` files (sorted by name).
    DecryptXml(usize),
    ConvertRegion(DeviceRegion),
    PatchCountry,
    /// Write both images at `target`, `boot` by footer or re-sign.
    PatchArb { target: u64, boot: BootIndexPatch },
    /// Rebuild `vbmeta`: algorithm taken from the key when unsigned.
    RebuildVbmeta { algorithm_from_key: bool },
}

pub open spec fn arb_plan_spec(i: AdvInputs) -> Result<AdvPlan, AdvError> {
    match i.arb_target {
        None => Err(AdvError::ArbTargetMissing),
        Some(target) => if !i.boot_is_file {
            Err(AdvError::ArbImageMissing(ArbImage::Boot))
        } else if !i.vbmeta_system_is_file {
            Err(AdvError::ArbImageMissing(ArbImage::VbmetaSystem))
        } else {
            match (i.boot, i.vbmeta_system) {
                (None, _) => Err(AdvError::ArbInspectFailed(ArbImage::Boot)),
                (_, None) => Err(AdvError::ArbInspectFailed(ArbImage::VbmetaSystem)),
                (Some(b), Some(v)) => if b.rollback_index <= 1 {
                    Err(AdvError::ArbRollbackRefused(ArbImage::Boot))
                } else if v.rollback_index <= 1 {
                    Err(AdvError::ArbRollbackRefused(ArbImage::VbmetaSystem))
                } else if !b.key_known {
                    Err(AdvError::SigningKeyUnknown(ArbImage::Boot))
                } else if !v.key_known {
                    Err(AdvError::SigningKeyUnknown(ArbImage::VbmetaSystem))
                } else {
                    Ok(
                        AdvPlan::PatchArb {
                            target,
                            boot: if b.algorithm_none {
                                BootIndexPatch::AddHashFooter
                            } else {
                                BootIndexPatch::Resign
                            },
                        },
                    )
                },
            }
        },
    }
}

/// What the single-file worker does for `action`, with its refusals in the
/// order it checks them.
pub open spec fn advanced_plan_spec(action: AdvAction, i: AdvInputs) -> Result<AdvPlan, AdvError> {
    match action {
        AdvAction::ImageInfo => Err(AdvError::ImageInfoDedicated),
        AdvAction::DetectArb => Err(AdvError::DetectArbDedicated),
        AdvAction::ConvertXml => match i.x_files {
            None => Err(AdvError::ReadDirFailed),
            Some(n) => if n == 0 {
                Err(AdvError::NoXFiles)
            } else {
                Ok(AdvPlan::DecryptXml(n))
            },
        },
        AdvAction::RegionConvert => match i.region_target {
            None => Err(AdvError::RegionTargetMissing),
            Some(t) => if !i.input_is_vendor_boot {
                Err(AdvError::VendorBootExpected)
            } else if !i.sibling_vbmeta_is_file {
                Err(AdvError::VbmetaMissing)
            } else {
                Ok(AdvPlan::ConvertRegion(t))
            },
        },
        AdvAction::PatchDevinfo => if !i.country_given {
            Err(AdvError::CountryTargetMissing)
        } else if !i.input_is_dir {
            Err(AdvError::CountryFolderExpected)
        } else {
            Ok(AdvPlan::PatchCountry)
        },
        AdvAction::PatchArb => arb_plan_spec(i),
        AdvAction::RebuildVbmeta => match i.vbmeta {
            None => Err(AdvError::VbmetaInspectFailed),
            Some(f) => if !f.key_known {
                Err(AdvError::VbmetaKeyUnknown)
            } else {
                Ok(AdvPlan::RebuildVbmeta { algorithm_from_key: f.algorithm_none })
            },
        },
        _ => Ok(AdvPlan::Notice),
    }
}

/// Law: every refusal of the rollback-index patch but an unknown signing
/// key is decided without looking at the keys: changing what is known of
/// the keys changes no such refusal.
pub proof fn lemma_arb_refusals_before_keys(i: AdvInputs, j: AdvInputs)
    requires
        i.arb_target == j.arb_target,
        i.boot_is_file == j.boot_is_file,
        i.vbmeta_system_is_file == j.vbmeta_system_is_file,
        i.boot is Some <==> j.boot is Some,
        i.vbmeta_system is Some <==> j.vbmeta_system is Some,
        i.boot is Some ==> i.boot->0.rollback_index == j.boot->0.rollback_index,
        i.vbmeta_system is Some ==> i.vbmeta_system->0.rollback_index
            == j.vbmeta_system->0.rollback_index,
        advanced_plan_spec(AdvAction::PatchArb, i) is Err,
        !(advanced_plan_spec(AdvAction::PatchArb, i)->Err_0 is SigningKeyUnknown),
    ensures
        advanced_plan_spec(AdvAction::PatchArb, j) == advanced_plan_spec(AdvAction::PatchArb, i),
{
}

/// Law: the rollback-index patch only ever writes an index above 1 over
/// images whose own index is above 1 and whose keys are both known.
pub proof fn lemma_arb_plan_guarded(i: AdvInputs)
    ensures
        advanced_plan_spec(AdvAction::PatchArb, i) matches Ok(AdvPlan::PatchArb { target, boot })
            ==> {
            &&& i.arb_target == Some(target)
            &&& i.boot_is_file && i.vbmeta_system_is_file
            &&& i.boot is Some && i.vbmeta_system is Some
            &&& i.boot->0.rollback_index > 1 && i.vbmeta_system->0.rollback_index > 1
            &&& i.boot->0.key_known && i.vbmeta_system->0.key_known
        },
{
}

fn arb_plan(i: AdvInputs) -> (r: Result<AdvPlan, AdvError>)
    ensures
        r == arb_plan_spec(i),
{
    match i.arb_target {
        None => Err(AdvError::ArbTargetMissing),
        Some(target) => if !i.boot_is_file {
            Err(AdvError::ArbImageMissing(ArbImage::Boot))
        } else if !i.vbmeta_system_is_file {
            Err(AdvError::ArbImageMissing(ArbImage::VbmetaSystem))
        } else {
            match (i.boot, i.vbmeta_system) {
                (None, _) => Err(AdvError::ArbInspectFailed(ArbImage::Boot)),
                (_, None) => Err(AdvError::ArbInspectFailed(ArbImage::VbmetaSystem)),
                (Some(b), Some(v)) => if b.rollback_index <= 1 {
                    Err(AdvError::ArbRollbackRefused(ArbImage::Boot))
                } else if v.rollback_index <= 1 {
                    Err(AdvError::ArbRollbackRefused(ArbImage::VbmetaSystem))
                } else if !b.key_known {
                    Err(AdvError::SigningKeyUnknown(ArbImage::Boot))
                } else if !v.key_known {
                    Err(AdvError::SigningKeyUnknown(ArbImage::VbmetaSystem))
                } else {
                    Ok(
                        AdvPlan::PatchArb {
                            target,
                            boot: if b.algorithm_none {
                                BootIndexPatch::AddHashFooter
                            } else {
                                BootIndexPatch::Resign
                            },
                        },
                    )
                },
            }
        },
    }
}

/// What the single-file worker does for `action` ([`advanced_plan_spec`]).
pub fn advanced_plan(action: AdvAction, i: AdvInputs) -> (r: Result<AdvPlan, AdvError>)
    ensures
        r == advanced_plan_spec(action, i),
{
    match action {
        AdvAction::ImageInfo => Err(AdvError::ImageInfoDedicated),
        AdvAction::DetectArb => Err(AdvError::DetectArbDedicated),
        AdvAction::ConvertXml => match i.x_files {
            None => Err(AdvError::ReadDirFailed),
            Some(n) => if n == 0 {
                Err(AdvError::NoXFiles)
            } else {
                Ok(AdvPlan::DecryptXml(n))
            },
        },
        AdvAction::RegionConvert => match i.region_target {
            None => Err(AdvError::RegionTargetMissing),
            Some(t) => if !i.input_is_vendor_boot {
                Err(AdvError::VendorBootExpected)
            } else if !i.sibling_vbmeta_is_file {
                Err(AdvError::VbmetaMissing)
            } else {
                Ok(AdvPlan::ConvertRegion(t))
            },
        },
        AdvAction::PatchDevinfo => if !i.country_given {
            Err(AdvError::CountryTargetMissing)
        } else if !i.input_is_dir {
            Err(AdvError::CountryFolderExpected)
        } else {
            Ok(AdvPlan::PatchCountry)
        },
        AdvAction::PatchArb => arb_plan(i),
        AdvAction::RebuildVbmeta => match i.vbmeta {
            None => Err(AdvError::VbmetaInspectFailed),
            Some(f) => if !f.key_known {
                Err(AdvError::VbmetaKeyUnknown)
            } else {
                Ok(AdvPlan::RebuildVbmeta { algorithm_from_key: f.algorithm_none })
            },
        },
        _ => Ok(AdvPlan::Notice),
    }
}

} // verus!
