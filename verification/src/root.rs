//! Root and unroot workflows: which patch route a wizard selection
//! resolves to, and which boot images and partitions they touch.

use vstd::prelude::*;
use vstd::string::*;

verus! {

/// Root family picked in the wizard.
#[derive(Debug, Clone, Copy, PartialEq, Eq, Structural)]
pub enum Family {
    Magisk,
    KernelSU,
    APatch,
    Skroot,
}

/// Root mode: loadable kernel module, or a GKI kernel swap.
#[derive(Debug, Clone, Copy, PartialEq, Eq, Structural)]
pub enum RootMode {
    Lkm,
    Gki,
}

/// Root provider picked in the wizard.
#[derive(Debug, Clone, Copy, PartialEq, Eq, Structural)]
pub enum Provider {
    Magisk,
    MagiskForks,
    KernelSU,
    KernelSUNext,
    SukiSU,
    ReSukiSU,
    APatch,
    FolkPatch,
}

/// Release channel of the provider.
#[derive(Debug, Clone, Copy, PartialEq, Eq, Structural)]
pub enum VerChoice {
    Stable,
    Nightly,
}

/// Provider the patch pipeline runs with.
#[derive(Debug, Clone, Copy, PartialEq, Eq, Structural)]
pub enum PipelineProvider {
    Magisk,
    MagiskFork,
    KernelSU,
    KernelSUNext,
    SukiSU,
    ReSukiSU,
    APatch,
    FolkPatch,
    Skroot,
}

/// A wizard selection that cannot start a root run.
#[derive(Debug, Clone, Copy, PartialEq, Eq, Structural)]
pub enum RootSelectionError {
    FamilyMissing,
    ProviderMissing,
    VersionMissing,
}

/// The route a root run takes.
#[derive(Debug, Clone, Copy, PartialEq, Eq, Structural)]
pub struct RootRoute {
    pub family: Family,
    pub provider: PipelineProvider,
    pub version: VerChoice,
    /// GKI route: the picked AnyKernel3 zip is the whole input.
    pub gki: bool,
}

pub open spec fn pipeline_provider_spec(p: Provider) -> PipelineProvider {
    match p {
        Provider::Magisk => PipelineProvider::Magisk,
        Provider::MagiskForks => PipelineProvider::MagiskFork,
        Provider::KernelSU => PipelineProvider::KernelSU,
        Provider::KernelSUNext => PipelineProvider::KernelSUNext,
        Provider::SukiSU => PipelineProvider::SukiSU,
        Provider::ReSukiSU => PipelineProvider::ReSukiSU,
        Provider::APatch => PipelineProvider::APatch,
        Provider::FolkPatch => PipelineProvider::FolkPatch,
    }
}

fn pipeline_provider(p: Provider) -> (r: PipelineProvider)
    ensures
        r == pipeline_provider_spec(p),
{
    match p {
        Provider::Magisk => PipelineProvider::Magisk,
        Provider::MagiskForks => PipelineProvider::MagiskFork,
        Provider::KernelSU => PipelineProvider::KernelSU,
        Provider::KernelSUNext => PipelineProvider::KernelSUNext,
        Provider::SukiSU => PipelineProvider::SukiSU,
        Provider::ReSukiSU => PipelineProvider::ReSukiSU,
        Provider::APatch => PipelineProvider::APatch,
        Provider::FolkPatch => PipelineProvider::FolkPatch,
    }
}

/// Resolves the wizard selection. The GKI route and SKRoot need no provider
/// or version (they run with Magisk's tooling, stable channel); SKRoot runs
/// the SKRoot pipeline provider. Every other route needs both.
pub fn resolve_root_route(
    family: Option<Family>,
    mode: Option<RootMode>,
    provider: Option<Provider>,
    version: Option<VerChoice>,
) -> (r: Result<RootRoute, RootSelectionError>)
    ensures
        match family {
            None => r == Err::<RootRoute, RootSelectionError>(RootSelectionError::FamilyMissing),
            Some(f) => {
                let gki = mode == Some(RootMode::Gki);
                if gki || f == Family::Skroot {
                    r == Ok::<RootRoute, RootSelectionError>(
                        RootRoute {
                            family: f,
                            provider: if f == Family::Skroot {
                                PipelineProvider::Skroot
                            } else {
                                PipelineProvider::Magisk
                            },
                            version: VerChoice::Stable,
                            gki,
                        },
                    )
                } else {
                    match (provider, version) {
                        (None, _) => r == Err::<RootRoute, RootSelectionError>(
                            RootSelectionError::ProviderMissing,
                        ),
                        (Some(_), None) => r == Err::<RootRoute, RootSelectionError>(
                            RootSelectionError::VersionMissing,
                        ),
                        (Some(p), Some(v)) => r == Ok::<RootRoute, RootSelectionError>(
                            RootRoute {
                                family: f,
                                provider: pipeline_provider_spec(p),
                                version: v,
                                gki: false,
                            },
                        ),
                    }
                }
            },
        },
{
    let gki = match mode {
        Some(RootMode::Gki) => true,
        _ => false,
    };
    let f = match family {
        Some(f) => f,
        None => {
            return Err(RootSelectionError::FamilyMissing);
        },
    };
    let skroot = f == Family::Skroot;
    if gki || skroot {
        let provider = if skroot {
            PipelineProvider::Skroot
        } else {
            PipelineProvider::Magisk
        };
        return Ok(RootRoute { family: f, provider, version: VerChoice::Stable, gki });
    }
    let p = match provider {
        Some(p) => p,
        None => {
            return Err(RootSelectionError::ProviderMissing);
        },
    };
    let v = match version {
        Some(v) => v,
        None => {
            return Err(RootSelectionError::VersionMissing);
        },
    };
    Ok(RootRoute { family: f, provider: pipeline_provider(p), version: v, gki: false })
}

/// What the file picked in the wizard is used as.
#[derive(Debug, Clone, Copy, PartialEq, Eq, Structural)]
pub enum PickedFileUse {
    /// The AnyKernel3 kernel zip of the GKI route.
    GkiKernelZip,
    /// The manager APK of a Magisk fork.
    MagiskForkApk,
    /// Not used.
    Unused,
}

pub fn picked_file_use(route: RootRoute) -> (r: PickedFileUse)
    ensures
        r == (if route.gki {
            PickedFileUse::GkiKernelZip
        } else if route.provider == PipelineProvider::MagiskFork {
            PickedFileUse::MagiskForkApk
        } else {
            PickedFileUse::Unused
        }),
{
    if route.gki {
        PickedFileUse::GkiKernelZip
    } else if route.provider == PipelineProvider::MagiskFork {
        PickedFileUse::MagiskForkApk
    } else {
        PickedFileUse::Unused
    }
}

/// The LKM mode cannot run without a kernel version (from the GUI or read
/// over ADB).
pub fn lkm_kernel_version_missing(mode: Option<RootMode>, kernel_version_known: bool) -> (r: bool)
    ensures
        r == (mode == Some(RootMode::Lkm) && !kernel_version_known),
{
    match mode {
        Some(RootMode::Lkm) => !kernel_version_known,
        _ => false,
    }
}

/// Image file the patch pipeline reads for a boot partition base:
/// `boot.img` for `boot`, else `init_boot.img`.
pub fn root_boot_image_name(base: &str) -> (r: &'static str)
    ensures
        r@ == (if base@ == "boot"@ {
            "boot.img"@
        } else {
            "init_boot.img"@
        }),
{
    if crate::text::str_eq(base, "boot") {
        "boot.img"
    } else {
        "init_boot.img"
    }
}

/// A partition name on a slot: the base followed by the slot suffix
/// (`boot` + `_a` gives `boot_a`).
pub fn slot_partition(base: &str, slot_suffix: &str) -> (r: String)
    ensures
        r@ == base@ + slot_suffix@,
{
    let mut r = String::from_str(base);
    r.append(slot_suffix);
    r
}

/// After the reboot to system, the manager APK install is retried only
/// when it was neither installed nor already failed before EDL, and an
/// APK is at hand.
pub fn retry_manager_install_after_reboot(
    installed_before_edl: bool,
    failed_before_edl: bool,
    apk_available: bool,
) -> (r: bool)
    ensures
        r == (!installed_before_edl && !failed_before_edl && apk_available),
{
    !installed_before_edl && !failed_before_edl && apk_available
}

/// LUN that holds `boot`, `init_boot` and `vbmeta` on the supported
/// tablets (UFS LUN 4).
pub const ROOT_PARTITIONS_LUN: u8 = 4;

/// A release asset is picked when its name, lower-cased (ASCII), ends
/// with `suffix`.
pub open spec fn asset_name_matches_spec(name: Seq<char>, suffix: Seq<char>) -> bool {
    &&& suffix.len() <= name.len()
    &&& forall|i: int|
        0 <= i < suffix.len() ==> #[trigger] crate::text::ascii_fold(name[name.len() - suffix.len() + i])
            == suffix[i] as u32
}

pub fn asset_name_matches(name: &str, suffix: &str) -> (r: bool)
    ensures
        r == asset_name_matches_spec(name@, suffix@),
{
    let n = crate::text::chars_of(name);
    let s = crate::text::chars_of(suffix);
    if s.len() > n.len() {
        return false;
    }
    let base = n.len() - s.len();
    let mut i: usize = 0;
    while i < s.len()
        invariant
            n@ == name@,
            s@ == suffix@,
            s.len() <= n.len(),
            base == n.len() - s.len(),
            i <= s.len(),
            forall|j: int|
                0 <= j < i ==> #[trigger] crate::text::ascii_fold(name@[name@.len() - suffix@.len() + j])
                    == suffix@[j] as u32,
        decreases s.len() - i,
    {
        if crate::text::fold_char(n[base + i]) != s[i] as u32 {
            assert(crate::text::ascii_fold(name@[name@.len() - suffix@.len() + i]) != suffix@[i as int] as u32);
            return false;
        }
        i += 1;
    }
    true
}

/// Backup type picked in the Unroot wizard.
#[derive(Debug, Clone, Copy, PartialEq, Eq, Structural)]
pub enum UnrootType {
    MagiskLkm,
    APatchGki,
}

/// The backed-up boot image file and its partition base for an unroot:
/// `init_boot.img` / `init_boot` for Magisk LKM, `boot.img` / `boot` for
/// APatch GKI.
pub fn unroot_boot_image(unroot_type: UnrootType) -> (r: (&'static str, &'static str))
    ensures
        (r.0@, r.1@) == (match unroot_type {
            UnrootType::MagiskLkm => ("init_boot.img"@, "init_boot"@),
            UnrootType::APatchGki => ("boot.img"@, "boot"@),
        }),
{
    match unroot_type {
        UnrootType::MagiskLkm => ("init_boot.img", "init_boot"),
        UnrootType::APatchGki => ("boot.img", "boot"),
    }
}

} // verus!
