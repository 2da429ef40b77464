//! The full firmware flash as a step machine. The caller performs each
//! action (probe Fastboot, inspect the firmware, open the EDL session,
//! write a partition, ...) and hands the outcome back as an event; the
//! library decides what comes next, and when and how a run stops.

use vstd::prelude::*;
use crate::device::{ConnectionStatus, is_adb_connected};
use crate::flash::{
    RollbackMode, KeyClass, PreEdlAbort, DeviceRegion, RegionStep, ArbPath, KeyLookup,
    ArbLocationStep, FixedFirmwareDevicePolicy, should_reboot_fastboot_to_system_after_pre_edl_abort,
    effective_rollback_mode, pre_edl_gate, region_step, fixed_firmware_device_policy,
    fixed_install_refused, arb_path, needs_edl_index_read, location_floors, arb_step_for,
    gbl_fetch_needed, efisp_step,
};
use crate::model::EdlProbeError;
use crate::writes::{WritePlan, WriteStep, WriteAbort, WriteNext, after_write_step};

verus! {

/// Country code the flash is asked to write after a wipe.
#[derive(Debug, Clone, Copy, PartialEq, Eq, Structural)]
pub enum CountryTarget {
    NoTarget,
    Cn,
    NonCn,
}

/// A TB322FC (PRC-only) device identified over EDL must not be converted
/// across regions nor given a country code other than `CN`.
#[verifier::allow_in_spec]
pub fn tb322fc_prc_only_violation(modify_region: bool, country: CountryTarget) -> bool
    returns
        modify_region || country == CountryTarget::NonCn,
{
    modify_region || country == CountryTarget::NonCn
}

/// What the user chose for a flash.
#[derive(Debug, Clone, Copy, PartialEq, Eq, Structural)]
pub struct FlashConfig {
    pub conn: ConnectionStatus,
    pub mode: RollbackMode,
    pub modify_region: bool,
    pub wipe: bool,
    pub country: CountryTarget,
    pub device_region: Option<DeviceRegion>,
    /// The connected device's model is rollback-protected (not known on an
    /// EDL start, where it is read off the device).
    pub rollback_protected_model: bool,
}

/// The settings a run carries from its configuration (all of it but the
/// rollback mode, which the run holds as the mode in force).
#[derive(Debug, Clone, Copy, PartialEq, Eq, Structural)]
pub struct FlashSettings {
    pub conn: ConnectionStatus,
    pub modify_region: bool,
    pub wipe: bool,
    pub country: CountryTarget,
    pub device_region: Option<DeviceRegion>,
    pub rollback_protected_model: bool,
}

pub open spec fn settings_of(cfg: FlashConfig) -> FlashSettings {
    FlashSettings {
        conn: cfg.conn,
        modify_region: cfg.modify_region,
        wipe: cfg.wipe,
        country: cfg.country,
        device_region: cfg.device_region,
        rollback_protected_model: cfg.rollback_protected_model,
    }
}

/// Where a flash run stands.
#[derive(Debug, Clone, Copy, PartialEq, Eq, Structural)]
pub enum FlashStage {
    /// Waiting for the Fastboot probe; `bridged` once ADB was sent to the
    /// bootloader.
    Probing { bridged: bool },
    Inspecting,
    BuildingRegion,
    DecryptingXml,
    EnteringEdl,
    OpeningSession,
    EdlIdentity,
    CollectingXmls,
    ReadingDeviceVbmeta,
    /// Building re-signed overlays: for a testkey device taking fixed-key
    /// firmware (`resign`), or TB323FU's chain.
    BuildingOverlays { resign: bool },
    BackingUpAbl,
    ReadingEdlIndex,
    /// Analysing location 0 (`boot`) or 1 (`vbmeta_system`).
    Location(usize),
    Patching(usize),
    FetchingGbl,
    Writing(WriteStep),
    Finished,
}

/// Overlays staged for the write phase.
#[derive(Debug, Clone, Copy, PartialEq, Eq, Structural)]
pub enum StagedOverlays {
    NoOverlays,
    /// Built as a whole chain (TB323FU, or a testkey re-sign).
    Chain(usize),
    /// Staged per location: `boot`, `vbmeta_system`.
    PerLocation { boot: bool, vbs: bool },
}

/// The state of a flash run.
#[derive(Debug, Clone, Copy)]
pub struct FlashRun {
    pub stage: FlashStage,
    pub cfg: FlashSettings,
    /// The rollback mode in force (demoted as the run learns more).
    pub mode: RollbackMode,
    pub fastboot_reachable: bool,
    pub device_index: Option<u64>,
    pub target_is_tb323fu: bool,
    pub firmware_key: KeyClass,
    /// Every gate that must pass before EDL has passed.
    pub gates_passed: bool,
    /// The EDL session is open.
    pub session_open: bool,
    pub region_pair: bool,
    pub edl_floors: Option<(u64, u64)>,
    pub rollback_protected: bool,
    pub floors: (Option<u64>, Option<u64>),
    pub overlays: StagedOverlays,
    pub abl_backup: bool,
    pub arb_need: bool,
    pub gbl_fetched: bool,
}

/// What the firmware inspection found.
#[derive(Debug, Clone, Copy, PartialEq, Eq, Structural)]
pub struct FirmwareFacts {
    /// `vbmeta_system`'s fingerprint names another model than the device.
    pub model_mismatch: bool,
    pub target_is_tb323fu: bool,
    pub tb323fu_skip_region: bool,
    pub firmware_key: KeyClass,
    pub has_vendor_boot: bool,
    pub has_vbmeta: bool,
}

/// Outcome of building the region-converted boot chain.
#[derive(Debug, Clone, Copy, PartialEq, Eq, Structural)]
pub enum RegionBuild {
    Built,
    /// The firmware is already of the target region.
    Skipped,
    Failed,
}

/// What was read of the device's active-slot `vbmeta_system`.
#[derive(Debug, Clone, Copy, PartialEq, Eq, Structural)]
pub struct DeviceKey {
    pub class: KeyClass,
    pub boot_floor: u64,
    pub vbs_floor: u64,
    pub firmware_boot_index: u64,
    pub firmware_vbs_index: u64,
}

/// What the analysis of one rollback location found.
#[derive(Debug, Clone, Copy, PartialEq, Eq, Structural)]
pub struct LocationFacts {
    /// The location has a LUN, its image exists and could be analysed.
    pub usable: bool,
    pub needs_patch: bool,
    pub algorithm_none: bool,
    pub key: KeyLookup,
}

/// Outcome of patching one location.
#[derive(Debug, Clone, Copy, PartialEq, Eq, Structural)]
pub enum PatchOutcome {
    Staged,
    /// The image could not be copied into the work folder.
    CopyFailed,
    /// Re-signing or footering failed (logged, the location is skipped).
    PatchFailed,
}

/// What the caller reports back.
#[derive(Debug, Clone, Copy)]
pub enum FlashEvent {
    FastbootProbed { reachable: bool, device_index: Option<u64> },
    FirmwareInspected(FirmwareFacts),
    RegionBuilt(RegionBuild),
    XmlDecrypted { ok: bool, loader_found: bool },
    EdlEntered { ok: bool },
    SessionOpened { ok: bool },
    EdlIdentityRead { floors: Result<Option<(u64, u64)>, EdlProbeError>, rollback_protected: bool },
    XmlsCollected { ok: bool, rawprogram_count: usize },
    DeviceVbmetaRead(Option<DeviceKey>),
    /// Overlays built: their number and whether a downgrade needed them.
    OverlaysBuilt(Option<(usize, bool)>),
    AblBackedUp { ok: bool },
    EdlIndexRead(Option<u64>),
    LocationAnalyzed(LocationFacts),
    LocationPatched(PatchOutcome),
    GblFetched { ok: bool },
    WriteDone { ok: bool },
}

/// Why a flash run stops.
#[derive(Debug, Clone, Copy, PartialEq, Eq, Structural)]
pub enum FlashError {
    ModelMismatchPreEdl,
    PreEdl(PreEdlAbort),
    RegionMissingDeviceRegion,
    RegionConversionFailed,
    DecryptFailed,
    EdlTransitionFailed,
    SessionOpenFailed,
    EdlProbe(EdlProbeError),
    Tb322fcPrcOnly,
    XmlSelectionFailed,
    NoRawprogramXml,
    DeviceVbmetaFailed,
    DeviceKeyUnknown,
    Key2DeviceConstraint,
    OverlayBuildFailed,
    AblBackupFailed,
    EdlIndexReadFailed,
    SigningKeyUnknown,
    ImageCopyFailed,
    GblFetchFailed,
    Write(WriteAbort),
}

/// What is done with the device when a run stops.
#[derive(Debug, Clone, Copy, PartialEq, Eq, Structural)]
pub enum StopRecovery {
    /// Leave the device where it is (in EDL once the session is open).
    Leave,
    /// Reboot a device left in Fastboot back to system.
    RebootFastbootToSystem,
    /// Best-effort `adb shell reboot`.
    AdbReboot,
    /// Reset the EDL session back into EDL.
    ResetToEdl,
    /// Reset the EDL session to system.
    ResetToSystem,
    /// Reset the EDL session, ignoring a failure.
    ResetTolerant,
}

/// How a successful run ends.
#[derive(Debug, Clone, Copy, PartialEq, Eq, Structural)]
pub enum FlashOutcome {
    Flashed,
    /// No EDL loader next to the firmware: nothing was written.
    NoLoader,
}

/// What the caller does next.
#[derive(Debug, Clone, Copy, PartialEq, Eq, Structural)]
pub enum FlashAction {
    ProbeFastboot,
    BridgeAdbToBootloader,
    InspectFirmware,
    BuildRegionChain(DeviceRegion),
    DecryptXml,
    EnterEdl,
    OpenSession,
    ProbeEdlIdentity,
    CollectXmls,
    ReadDeviceVbmeta,
    /// Build the re-signed overlays (with the device floors when `resign`).
    BuildOverlays { resign: bool },
    BackupAbl,
    ReadEdlIndex,
    AnalyzeLocation(usize),
    PatchLocation(usize, ArbLocationStep),
    /// Fetch the `efisp` GBL, the `_arb` variant when `arb`.
    FetchGbl { arb: bool },
    Write(WriteStep),
    RestoreAblThenStop(FlashError),
    Stop(FlashError, StopRecovery),
    Finish(FlashOutcome),
    /// The event does not belong to the current stage.
    Unexpected,
}

pub open spec fn edl_start(s: FlashRun) -> bool {
    s.cfg.conn == ConnectionStatus::Edl
}

/// Recovery after an abort before EDL.
pub open spec fn pre_edl_recovery(s: FlashRun) -> StopRecovery {
    if should_reboot_fastboot_to_system_after_pre_edl_abort(s.cfg.conn == ConnectionStatus::Fastboot) {
        StopRecovery::RebootFastbootToSystem
    } else {
        StopRecovery::Leave
    }
}

/// Recovery after an abort with the EDL session open: back into EDL on an
/// EDL start, to system otherwise.
pub open spec fn session_recovery(s: FlashRun) -> StopRecovery {
    if edl_start(s) {
        StopRecovery::ResetToEdl
    } else {
        StopRecovery::ResetToSystem
    }
}

pub open spec fn stop(s: FlashRun, e: FlashError, rec: StopRecovery) -> (FlashRun, FlashAction) {
    (FlashRun { stage: FlashStage::Finished, ..s }, FlashAction::Stop(e, rec))
}

pub open spec fn staged_count(o: StagedOverlays) -> usize {
    match o {
        StagedOverlays::NoOverlays => 0,
        StagedOverlays::Chain(n) => n,
        StagedOverlays::PerLocation { boot, vbs } => ((if boot { 1usize } else { 0usize }) + (if vbs {
            1usize
        } else {
            0usize
        })) as usize,
    }
}

/// The plan of the write phase, fixed by what the run staged.
pub open spec fn write_plan(s: FlashRun) -> WritePlan {
    WritePlan {
        overlays: staged_count(s.overlays),
        abl_backup: s.abl_backup,
        efisp: efisp_step(
            s.target_is_tb323fu,
            s.gbl_fetched,
            s.arb_need,
            s.cfg.wipe,
            s.cfg.modify_region,
        ),
        region_pair: s.region_pair,
        country: s.cfg.wipe && s.cfg.country != CountryTarget::NoTarget,
    }
}

pub open spec fn start_writes(s: FlashRun) -> (FlashRun, FlashAction) {
    (
        FlashRun { stage: FlashStage::Writing(WriteStep::Rawprogram), ..s },
        FlashAction::Write(WriteStep::Rawprogram),
    )
}

/// After the rollback work: fetch TB323FU's GBL when needed, then write.
pub open spec fn gbl_stage(s: FlashRun) -> (FlashRun, FlashAction) {
    if gbl_fetch_needed(s.target_is_tb323fu, s.arb_need, s.cfg.modify_region) {
        (FlashRun { stage: FlashStage::FetchingGbl, ..s }, FlashAction::FetchGbl { arb: s.arb_need })
    } else {
        start_writes(s)
    }
}

/// The rollback-bypass path once the key handling is settled.
pub open spec fn arb_stage(s: FlashRun) -> (FlashRun, FlashAction) {
    match arb_path(s.mode, s.target_is_tb323fu) {
        ArbPath::Bypassed => gbl_stage(s),
        ArbPath::Tb323fuOverlays => (
            FlashRun { stage: FlashStage::BuildingOverlays { resign: false }, ..s },
            FlashAction::BuildOverlays { resign: false },
        ),
        ArbPath::PerLocation => if needs_edl_index_read(
            s.edl_floors,
            s.device_index,
            s.rollback_protected,
        ) {
            (FlashRun { stage: FlashStage::ReadingEdlIndex, ..s }, FlashAction::ReadEdlIndex)
        } else {
            (
                FlashRun {
                    stage: FlashStage::Location(0),
                    floors: location_floors(s.edl_floors, s.device_index),
                    overlays: StagedOverlays::PerLocation { boot: false, vbs: false },
                    ..s
                },
                FlashAction::AnalyzeLocation(0),
            )
        },
    }
}

/// After the XMLs: the device key gate for fixed-key firmware, else the
/// rollback work.
pub open spec fn after_xmls(s: FlashRun) -> (FlashRun, FlashAction) {
    if s.firmware_key == KeyClass::Fixed && !s.target_is_tb323fu {
        (FlashRun { stage: FlashStage::ReadingDeviceVbmeta, ..s }, FlashAction::ReadDeviceVbmeta)
    } else {
        arb_stage(s)
    }
}

/// On to the next rollback location, or past the last one.
pub open spec fn next_location(s: FlashRun, i: usize) -> (FlashRun, FlashAction) {
    if i == 0 {
        (FlashRun { stage: FlashStage::Location(1), ..s }, FlashAction::AnalyzeLocation(1))
    } else {
        gbl_stage(s)
    }
}

pub open spec fn location_floor(s: FlashRun, i: usize) -> Option<u64> {
    if i == 0 {
        s.floors.0
    } else {
        s.floors.1
    }
}

pub open spec fn mark_staged(o: StagedOverlays, i: usize) -> StagedOverlays {
    match o {
        StagedOverlays::PerLocation { boot, vbs } => if i == 0 {
            StagedOverlays::PerLocation { boot: true, vbs }
        } else {
            StagedOverlays::PerLocation { boot, vbs: true }
        },
        _ => o,
    }
}

/// The pre-EDL gates, then the region step, for the inspected firmware.
pub open spec fn gates_and_region(s1: FlashRun, f: FirmwareFacts) -> (FlashRun, FlashAction) {
    match pre_edl_gate(
        s1.mode,
        s1.fastboot_reachable,
        edl_start(s1),
        f.firmware_key,
        s1.cfg.modify_region,
        f.target_is_tb323fu,
    ) {
        Err(PreEdlAbort::RollbackOnFastbootUnreachable) => stop(
            s1,
            FlashError::PreEdl(PreEdlAbort::RollbackOnFastbootUnreachable),
            StopRecovery::AdbReboot,
        ),
        Err(e) => stop(s1, FlashError::PreEdl(e), pre_edl_recovery(s1)),
        Ok(()) => match region_step(
            s1.cfg.modify_region,
            f.tb323fu_skip_region,
            f.has_vendor_boot,
            f.has_vbmeta,
            s1.cfg.device_region,
        ) {
            RegionStep::DeviceRegionMissing => stop(
                s1,
                FlashError::RegionMissingDeviceRegion,
                pre_edl_recovery(s1),
            ),
            RegionStep::Convert(d) => (
                FlashRun { stage: FlashStage::BuildingRegion, ..s1 },
                FlashAction::BuildRegionChain(d),
            ),
            _ => (
                FlashRun { stage: FlashStage::DecryptingXml, gates_passed: true, ..s1 },
                FlashAction::DecryptXml,
            ),
        },
    }
}

/// The inspection gates, in the order the flash checks them: the model
/// check (not on an EDL start), then [`gates_and_region`] with the rollback
/// mode TB323FU firmware is demoted to.
pub open spec fn after_inspection(s: FlashRun, f: FirmwareFacts) -> (FlashRun, FlashAction) {
    let s1 = FlashRun {
        target_is_tb323fu: f.target_is_tb323fu,
        firmware_key: f.firmware_key,
        mode: effective_rollback_mode(f.target_is_tb323fu, s.mode),
        ..s
    };
    if f.model_mismatch && !edl_start(s) {
        stop(s1, FlashError::ModelMismatchPreEdl, pre_edl_recovery(s1))
    } else {
        gates_and_region(s1, f)
    }
}

/// The device-key gate for fixed-key firmware.
pub open spec fn after_device_key(s: FlashRun, k: Option<DeviceKey>) -> (FlashRun, FlashAction) {
    match k {
        None => stop(s, FlashError::DeviceVbmetaFailed, session_recovery(s)),
        Some(k) => match fixed_firmware_device_policy(k.class) {
            FixedFirmwareDevicePolicy::AbortUnknown => stop(
                s,
                FlashError::DeviceKeyUnknown,
                session_recovery(s),
            ),
            FixedFirmwareDevicePolicy::KeepFixed => if fixed_install_refused(
                s.cfg.modify_region,
                k.firmware_boot_index,
                k.firmware_vbs_index,
                k.boot_floor,
                k.vbs_floor,
            ) {
                stop(s, FlashError::Key2DeviceConstraint, session_recovery(s))
            } else {
                arb_stage(FlashRun { mode: RollbackMode::Off, ..s })
            },
            FixedFirmwareDevicePolicy::ResignTestkey => (
                FlashRun { stage: FlashStage::BuildingOverlays { resign: true }, ..s },
                FlashAction::BuildOverlays { resign: true },
            ),
        },
    }
}

/// One step of the flash: the next state and action after `event`.
pub open spec fn flash_step_spec(s: FlashRun, event: FlashEvent) -> (FlashRun, FlashAction) {
    match (s.stage, event) {
        (FlashStage::Probing { bridged }, FlashEvent::FastbootProbed { reachable, device_index }) => {
            if !reachable && !bridged && is_adb_connected(s.cfg.conn) {
                (
                    FlashRun { stage: FlashStage::Probing { bridged: true }, ..s },
                    FlashAction::BridgeAdbToBootloader,
                )
            } else {
                (
                    FlashRun {
                        stage: FlashStage::Inspecting,
                        fastboot_reachable: reachable,
                        device_index,
                        ..s
                    },
                    FlashAction::InspectFirmware,
                )
            }
        },
        (FlashStage::Inspecting, FlashEvent::FirmwareInspected(f)) => after_inspection(s, f),
        (FlashStage::BuildingRegion, FlashEvent::RegionBuilt(b)) => match b {
            RegionBuild::Failed => stop(s, FlashError::RegionConversionFailed, pre_edl_recovery(s)),
            RegionBuild::Built => (
                FlashRun {
                    stage: FlashStage::DecryptingXml,
                    gates_passed: true,
                    region_pair: true,
                    ..s
                },
                FlashAction::DecryptXml,
            ),
            RegionBuild::Skipped => (
                FlashRun { stage: FlashStage::DecryptingXml, gates_passed: true, ..s },
                FlashAction::DecryptXml,
            ),
        },
        (FlashStage::DecryptingXml, FlashEvent::XmlDecrypted { ok, loader_found }) => {
            if !ok {
                stop(s, FlashError::DecryptFailed, StopRecovery::Leave)
            } else if !loader_found {
                (
                    FlashRun { stage: FlashStage::Finished, ..s },
                    FlashAction::Finish(FlashOutcome::NoLoader),
                )
            } else {
                (FlashRun { stage: FlashStage::EnteringEdl, ..s }, FlashAction::EnterEdl)
            }
        },
        (FlashStage::EnteringEdl, FlashEvent::EdlEntered { ok }) => if ok {
            (FlashRun { stage: FlashStage::OpeningSession, ..s }, FlashAction::OpenSession)
        } else {
            stop(s, FlashError::EdlTransitionFailed, StopRecovery::Leave)
        },
        (FlashStage::OpeningSession, FlashEvent::SessionOpened { ok }) => if !ok {
            stop(s, FlashError::SessionOpenFailed, StopRecovery::Leave)
        } else if edl_start(s) {
            (
                FlashRun { stage: FlashStage::EdlIdentity, session_open: true, ..s },
                FlashAction::ProbeEdlIdentity,
            )
        } else {
            (
                FlashRun { stage: FlashStage::CollectingXmls, session_open: true, ..s },
                FlashAction::CollectXmls,
            )
        },
        (
            FlashStage::EdlIdentity,
            FlashEvent::EdlIdentityRead { floors, rollback_protected },
        ) => match floors {
            Err(e) => stop(s, FlashError::EdlProbe(e), StopRecovery::ResetToEdl),
            Ok(None) => if tb322fc_prc_only_violation(s.cfg.modify_region, s.cfg.country) {
                stop(s, FlashError::Tb322fcPrcOnly, StopRecovery::ResetToEdl)
            } else {
                (
                    FlashRun {
                        stage: FlashStage::CollectingXmls,
                        mode: RollbackMode::Off,
                        rollback_protected,
                        ..s
                    },
                    FlashAction::CollectXmls,
                )
            },
            Ok(Some(f)) => (
                FlashRun {
                    stage: FlashStage::CollectingXmls,
                    edl_floors: Some(f),
                    rollback_protected,
                    ..s
                },
                FlashAction::CollectXmls,
            ),
        },
        (FlashStage::CollectingXmls, FlashEvent::XmlsCollected { ok, rawprogram_count }) => {
            if !ok {
                stop(s, FlashError::XmlSelectionFailed, StopRecovery::Leave)
            } else if rawprogram_count == 0 {
                stop(s, FlashError::NoRawprogramXml, StopRecovery::Leave)
            } else {
                after_xmls(s)
            }
        },
        (FlashStage::ReadingDeviceVbmeta, FlashEvent::DeviceVbmetaRead(k)) => after_device_key(s, k),
        (FlashStage::BuildingOverlays { resign }, FlashEvent::OverlaysBuilt(built)) => match built {
            None => stop(s, FlashError::OverlayBuildFailed, StopRecovery::Leave),
            Some((n, need)) => if resign {
                (
                    FlashRun {
                        stage: FlashStage::BackingUpAbl,
                        overlays: StagedOverlays::Chain(n),
                        ..s
                    },
                    FlashAction::BackupAbl,
                )
            } else {
                gbl_stage(FlashRun { overlays: StagedOverlays::Chain(n), arb_need: need, ..s })
            },
        },
        (FlashStage::BackingUpAbl, FlashEvent::AblBackedUp { ok }) => if ok {
            arb_stage(FlashRun { abl_backup: true, mode: RollbackMode::Off, ..s })
        } else {
            stop(s, FlashError::AblBackupFailed, session_recovery(s))
        },
        (FlashStage::ReadingEdlIndex, FlashEvent::EdlIndexRead(idx)) => match idx {
            None => stop(s, FlashError::EdlIndexReadFailed, StopRecovery::Leave),
            Some(i) => (
                FlashRun {
                    stage: FlashStage::Location(0),
                    floors: (Some(i), Some(i)),
                    overlays: StagedOverlays::PerLocation { boot: false, vbs: false },
                    ..s
                },
                FlashAction::AnalyzeLocation(0),
            ),
        },
        (FlashStage::Location(i), FlashEvent::LocationAnalyzed(l)) => if !l.usable {
            next_location(s, i)
        } else {
            match arb_step_for(i == 1, l.needs_patch, location_floor(s, i), l.algorithm_none, l.key) {
                ArbLocationStep::AbortUnknownKey => stop(
                    s,
                    FlashError::SigningKeyUnknown,
                    StopRecovery::ResetTolerant,
                ),
                ArbLocationStep::Resign(t) => (
                    FlashRun { stage: FlashStage::Patching(i), ..s },
                    FlashAction::PatchLocation(i, ArbLocationStep::Resign(t)),
                ),
                ArbLocationStep::AddHashFooter(t) => (
                    FlashRun { stage: FlashStage::Patching(i), ..s },
                    FlashAction::PatchLocation(i, ArbLocationStep::AddHashFooter(t)),
                ),
                _ => next_location(s, i),
            }
        },
        (FlashStage::Patching(i), FlashEvent::LocationPatched(p)) => match p {
            PatchOutcome::CopyFailed => stop(s, FlashError::ImageCopyFailed, StopRecovery::Leave),
            PatchOutcome::PatchFailed => next_location(s, i),
            PatchOutcome::Staged => next_location(
                FlashRun { overlays: mark_staged(s.overlays, i), ..s },
                i,
            ),
        },
        (FlashStage::FetchingGbl, FlashEvent::GblFetched { ok }) => if ok {
            start_writes(FlashRun { gbl_fetched: true, ..s })
        } else {
            stop(s, FlashError::GblFetchFailed, StopRecovery::Leave)
        },
        (FlashStage::Writing(step), FlashEvent::WriteDone { ok }) => match after_write_step(
            write_plan(s),
            step,
            ok,
        ) {
            WriteNext::Do(next) => (
                FlashRun { stage: FlashStage::Writing(next), ..s },
                FlashAction::Write(next),
            ),
            WriteNext::RestoreAblThenAbort(e) => (
                FlashRun { stage: FlashStage::Finished, ..s },
                FlashAction::RestoreAblThenStop(FlashError::Write(e)),
            ),
            WriteNext::Abort(e) => stop(s, FlashError::Write(e), StopRecovery::Leave),
            WriteNext::Done => (
                FlashRun { stage: FlashStage::Finished, ..s },
                FlashAction::Finish(FlashOutcome::Flashed),
            ),
        },
        _ => (s, FlashAction::Unexpected),
    }
}

/// The state a flash starts in.
pub open spec fn flash_start_spec(cfg: FlashConfig) -> FlashRun {
    FlashRun {
        stage: FlashStage::Probing { bridged: false },
        cfg: settings_of(cfg),
        mode: cfg.mode,
        fastboot_reachable: false,
        device_index: None,
        target_is_tb323fu: false,
        firmware_key: KeyClass::Unknown,
        gates_passed: false,
        session_open: false,
        region_pair: false,
        edl_floors: None,
        rollback_protected: cfg.rollback_protected_model,
        floors: (None, None),
        overlays: StagedOverlays::NoOverlays,
        abl_backup: false,
        arb_need: false,
        gbl_fetched: false,
    }
}


/// Stages before the inspection verdict.
pub open spec fn before_inspection(stage: FlashStage) -> bool {
    stage is Probing || stage is Inspecting
}

/// Stages reached only once every pre-EDL gate passed.
pub open spec fn past_gates(stage: FlashStage) -> bool {
    !(stage is Probing || stage is Inspecting || stage is BuildingRegion || stage is Finished)
}

/// Stages reached only with the EDL session open.
pub open spec fn in_session(stage: FlashStage) -> bool {
    past_gates(stage) && !(stage is DecryptingXml || stage is EnteringEdl
        || stage is OpeningSession)
}

/// The pre-EDL gates hold of the run's values.
pub open spec fn gates_hold(s: FlashRun) -> bool {
    pre_edl_gate(
        s.mode,
        s.fastboot_reachable,
        edl_start(s),
        s.firmware_key,
        s.cfg.modify_region,
        s.target_is_tb323fu,
    ) is Ok
}

/// What every state of a flash run satisfies.
pub open spec fn flash_inv(s: FlashRun) -> bool {
    &&& past_gates(s.stage) ==> s.gates_passed
    &&& in_session(s.stage) ==> s.session_open
    &&& s.gates_passed ==> gates_hold(s)
    &&& s.session_open ==> s.gates_passed
    &&& s.stage is EdlIdentity ==> edl_start(s)
    &&& before_inspection(s.stage) || s.stage is BuildingRegion ==> !s.gates_passed
        && !s.session_open
    &&& s.stage is BuildingRegion ==> gates_hold(s)
    &&& !before_inspection(s.stage) && s.target_is_tb323fu ==> s.mode != RollbackMode::On
}

/// Actions that talk to the device in (or on the way to) EDL.
pub open spec fn edl_action(a: FlashAction) -> bool {
    a is EnterEdl || a is OpenSession || a is ProbeEdlIdentity || a is CollectXmls
        || a is ReadDeviceVbmeta || a is BuildOverlays || a is BackupAbl || a is ReadEdlIndex
        || a is Write || a is RestoreAblThenStop
}

/// Law: a flash starts in a state of the invariant.
pub proof fn lemma_flash_start_inv(cfg: FlashConfig)
    ensures
        flash_inv(flash_start_spec(cfg)),
{
}

/// Law: every step keeps the invariant: nothing past the gates without
/// them, nothing in EDL without the session, and TB323FU firmware never
/// runs a blind `On` once inspected.
#[verifier::rlimit(50)]
pub proof fn lemma_flash_step_keeps_inv(s: FlashRun, e: FlashEvent)
    requires
        flash_inv(s),
    ensures
        flash_inv(flash_step_spec(s, e).0),
{
    // The case split by stage keeps each case small for the solver: the
    // stages that carry an index are split off, and the inspection step is
    // unfolded through its two helpers.
    match s.stage {
        FlashStage::Inspecting => {
            if let FlashEvent::FirmwareInspected(f) = e {
                let s1 = FlashRun {
                    target_is_tb323fu: f.target_is_tb323fu,
                    firmware_key: f.firmware_key,
                    mode: effective_rollback_mode(f.target_is_tb323fu, s.mode),
                    ..s
                };
                assert(flash_step_spec(s, e) == after_inspection(s, f));
                if !(f.model_mismatch && !edl_start(s)) {
                    assert(after_inspection(s, f) == gates_and_region(s1, f));
                }
            }
        },
        FlashStage::Location(_) | FlashStage::Patching(_) | FlashStage::Writing(_) => {},
        _ => {},
    }
}

/// Law: nothing reaches EDL, and nothing is written, before every pre-EDL
/// gate passed; writes happen only with the session open.
pub proof fn lemma_edl_only_after_gates(s: FlashRun, e: FlashEvent)
    requires
        flash_inv(s),
    ensures
        edl_action(flash_step_spec(s, e).1) ==> flash_step_spec(s, e).0.gates_passed
            && gates_hold(flash_step_spec(s, e).0),
        flash_step_spec(s, e).1 is Write ==> flash_step_spec(s, e).0.session_open,
{
    lemma_flash_step_keeps_inv(s, e);
}

/// Law: how a stopped run leaves the device. A reset of the EDL session
/// comes only with the session open, back into EDL exactly on an EDL start
/// (or by the tolerant reset of an unknown signing key); the Fastboot and
/// ADB reboots come only before EDL; a failed write leaves the device in
/// EDL.
#[verifier::rlimit(50)]
pub proof fn lemma_stop_recovery(s: FlashRun, e: FlashEvent)
    requires
        flash_inv(s),
    ensures
        flash_step_spec(s, e).1 matches FlashAction::Stop(err, rec) ==> {
            &&& rec == StopRecovery::ResetToEdl ==> s.session_open && edl_start(s)
            &&& rec == StopRecovery::ResetToSystem ==> s.session_open && !edl_start(s)
            &&& rec == StopRecovery::ResetTolerant ==> s.session_open
            &&& rec == StopRecovery::RebootFastbootToSystem ==> !s.session_open
                && s.cfg.conn != ConnectionStatus::Fastboot
            &&& rec == StopRecovery::AdbReboot ==> !s.session_open
            &&& err is Write ==> rec == StopRecovery::Leave
        },
{
    // The case split by stage keeps each case small for the solver: the
    // stages that carry an index are split off, and the inspection step is
    // unfolded through its two helpers.
    match s.stage {
        FlashStage::Inspecting => {
            if let FlashEvent::FirmwareInspected(f) = e {
                let s1 = FlashRun {
                    target_is_tb323fu: f.target_is_tb323fu,
                    firmware_key: f.firmware_key,
                    mode: effective_rollback_mode(f.target_is_tb323fu, s.mode),
                    ..s
                };
                assert(flash_step_spec(s, e) == after_inspection(s, f));
                if !(f.model_mismatch && !edl_start(s)) {
                    assert(after_inspection(s, f) == gates_and_region(s1, f));
                }
            }
        },
        FlashStage::Location(_) | FlashStage::Patching(_) | FlashStage::Writing(_) => {},
        _ => {},
    }
}

/// Law: TB323FU's re-signed chain is only built under `Auto`, never under a
/// blind `On`.
pub proof fn lemma_tb323fu_chain_under_auto(s: FlashRun, e: FlashEvent)
    requires
        flash_inv(s),
    ensures
        flash_step_spec(s, e).1 == (FlashAction::BuildOverlays { resign: false }) ==> {
            &&& flash_step_spec(s, e).0.target_is_tb323fu
            &&& flash_step_spec(s, e).0.mode == RollbackMode::Auto
        },
{
    lemma_flash_step_keeps_inv(s, e);
}

/// The country target of a flash from the code the user picked: `CN` in
/// any ASCII case, another code, or none.
pub fn country_target(code: Option<&str>) -> (r: CountryTarget)
    ensures
        r == (match code {
            None => CountryTarget::NoTarget,
            Some(c) => if crate::text::eq_ignore_ascii_case_spec(c@, "CN"@) {
                CountryTarget::Cn
            } else {
                CountryTarget::NonCn
            },
        }),
{
    match code {
        None => CountryTarget::NoTarget,
        Some(c) => if crate::text::eq_ignore_ascii_case(c, "CN") {
            CountryTarget::Cn
        } else {
            CountryTarget::NonCn
        },
    }
}

/// The final state and the actions of a run from `s` over `events`.
pub open spec fn flash_trace(s: FlashRun, events: Seq<FlashEvent>) -> (FlashRun, Seq<FlashAction>)
    decreases events.len(),
{
    if events.len() == 0 {
        (s, Seq::empty())
    } else {
        let (t, a) = flash_step_spec(s, events[0]);
        let (u, rest) = flash_trace(t, events.drop_first());
        (u, seq![a] + rest)
    }
}

/// Every inspection reported in `events` found TB323FU firmware.
pub open spec fn reports_tb323fu(events: Seq<FlashEvent>) -> bool {
    forall|k: int|
        0 <= k < events.len() && #[trigger] events[k] is FirmwareInspected
            ==> events[k]->FirmwareInspected_0.target_is_tb323fu
}

/// Two states of runs configured `On` (`a`) and `Auto` (`b`) that behave
/// alike: equal, or, before the inspection, equal but for the mode in force
/// (`On` against `Auto`).
pub open spec fn on_auto_twins(a: FlashRun, b: FlashRun) -> bool {
    ||| a == b
    ||| before_inspection(a.stage) && a.mode == RollbackMode::On && b == FlashRun {
        mode: RollbackMode::Auto,
        ..a
    }
}

proof fn lemma_twin_probing(a: FlashRun, b: FlashRun, e: FlashEvent)
    requires
        a.stage is Probing,
        a.mode == RollbackMode::On,
        b == (FlashRun { mode: RollbackMode::Auto, ..a }),
    ensures
        on_auto_twins(flash_step_spec(a, e).0, flash_step_spec(b, e).0),
        flash_step_spec(a, e).1 == flash_step_spec(b, e).1,
{
}

proof fn lemma_twin_inspected(a: FlashRun, b: FlashRun, f: FirmwareFacts)
    requires
        a.stage is Inspecting,
        a.mode == RollbackMode::On,
        f.target_is_tb323fu,
        b == (FlashRun { mode: RollbackMode::Auto, ..a }),
    ensures
        flash_step_spec(a, FlashEvent::FirmwareInspected(f)) == flash_step_spec(
            b,
            FlashEvent::FirmwareInspected(f),
        ),
{
    let s1 = FlashRun {
        target_is_tb323fu: f.target_is_tb323fu,
        firmware_key: f.firmware_key,
        mode: effective_rollback_mode(f.target_is_tb323fu, a.mode),
        ..a
    };
    let s2 = FlashRun {
        target_is_tb323fu: f.target_is_tb323fu,
        firmware_key: f.firmware_key,
        mode: effective_rollback_mode(f.target_is_tb323fu, b.mode),
        ..b
    };
    assert(s1 == s2);
    assert(flash_step_spec(a, FlashEvent::FirmwareInspected(f)) == after_inspection(a, f));
    assert(flash_step_spec(b, FlashEvent::FirmwareInspected(f)) == after_inspection(b, f));
}

proof fn lemma_twin_inspecting_other(a: FlashRun, b: FlashRun, e: FlashEvent)
    requires
        a.stage is Inspecting,
        !(e is FirmwareInspected),
        b == (FlashRun { mode: RollbackMode::Auto, ..a }),
    ensures
        flash_step_spec(a, e) == (a, FlashAction::Unexpected),
        flash_step_spec(b, e) == (b, FlashAction::Unexpected),
{
}

/// One step keeps twins twins, with the same action, as long as an
/// inspection reports TB323FU firmware.
proof fn lemma_twin_step(a: FlashRun, b: FlashRun, e: FlashEvent)
    requires
        on_auto_twins(a, b),
        e is FirmwareInspected ==> e->FirmwareInspected_0.target_is_tb323fu,
    ensures
        on_auto_twins(flash_step_spec(a, e).0, flash_step_spec(b, e).0),
        flash_step_spec(a, e).1 == flash_step_spec(b, e).1,
{
    if a != b {
        if a.stage is Probing {
            lemma_twin_probing(a, b, e);
        } else if e is FirmwareInspected {
            lemma_twin_inspected(a, b, e->FirmwareInspected_0);
        } else {
            lemma_twin_inspecting_other(a, b, e);
        }
    }
}

proof fn lemma_twin_trace(a: FlashRun, b: FlashRun, events: Seq<FlashEvent>)
    requires
        on_auto_twins(a, b),
        reports_tb323fu(events),
    ensures
        flash_trace(a, events).1 == flash_trace(b, events).1,
        on_auto_twins(flash_trace(a, events).0, flash_trace(b, events).0),
    decreases events.len(),
{
    if events.len() > 0 {
        assert(events[0] is FirmwareInspected ==> events[0]->FirmwareInspected_0.target_is_tb323fu);
        lemma_twin_step(a, b, events[0]);
        let rest = events.drop_first();
        assert forall|k: int|
            0 <= k < rest.len() && #[trigger] rest[k] is FirmwareInspected implies
                rest[k]->FirmwareInspected_0.target_is_tb323fu by {
            assert(rest[k] == events[k + 1]);
        }
        lemma_twin_trace(flash_step_spec(a, events[0]).0, flash_step_spec(b, events[0]).0, rest);
    }
}

/// Law: TB323FU firmware never runs a blind `On`. Over a whole run whose
/// inspection finds TB323FU firmware, a flash configured `On` takes the
/// same actions as one configured `Auto`, event for event, and the two end
/// in the same state (but for the mode in force, if the run stopped before
/// the inspection).
pub proof fn lemma_tb323fu_on_runs_as_auto(cfg: FlashConfig, events: Seq<FlashEvent>)
    requires
        cfg.mode == RollbackMode::Auto,
        reports_tb323fu(events),
    ensures
        flash_trace(flash_start_spec(FlashConfig { mode: RollbackMode::On, ..cfg }), events).1
            == flash_trace(flash_start_spec(cfg), events).1,
        on_auto_twins(
            flash_trace(flash_start_spec(FlashConfig { mode: RollbackMode::On, ..cfg }), events).0,
            flash_trace(flash_start_spec(cfg), events).0,
        ),
{
    let a = flash_start_spec(FlashConfig { mode: RollbackMode::On, ..cfg });
    let b = flash_start_spec(cfg);
    assert(b == FlashRun { mode: RollbackMode::Auto, ..a });
    lemma_twin_trace(a, b, events);
}

fn pre_edl_recovery_exec(s: FlashRun) -> (r: StopRecovery)
    ensures
        r == pre_edl_recovery(s),
{
    if should_reboot_fastboot_to_system_after_pre_edl_abort(s.cfg.conn == ConnectionStatus::Fastboot) {
        StopRecovery::RebootFastbootToSystem
    } else {
        StopRecovery::Leave
    }
}

fn session_recovery_exec(s: FlashRun) -> (r: StopRecovery)
    ensures
        r == session_recovery(s),
{
    if s.cfg.conn == ConnectionStatus::Edl {
        StopRecovery::ResetToEdl
    } else {
        StopRecovery::ResetToSystem
    }
}

fn stop_exec(s: FlashRun, e: FlashError, rec: StopRecovery) -> (r: (FlashRun, FlashAction))
    ensures
        r == stop(s, e, rec),
{
    (FlashRun { stage: FlashStage::Finished, ..s }, FlashAction::Stop(e, rec))
}

fn staged_count_exec(o: StagedOverlays) -> (r: usize)
    ensures
        r == staged_count(o),
{
    match o {
        StagedOverlays::NoOverlays => 0,
        StagedOverlays::Chain(n) => n,
        StagedOverlays::PerLocation { boot, vbs } => {
            let b: usize = if boot { 1 } else { 0 };
            let v: usize = if vbs { 1 } else { 0 };
            b + v
        },
    }
}

/// The plan of the write phase for the run (see [`write_plan`]).
pub fn write_plan_of(s: &FlashRun) -> (r: WritePlan)
    ensures
        r == write_plan(*s),
{
    WritePlan {
        overlays: staged_count_exec(s.overlays),
        abl_backup: s.abl_backup,
        efisp: efisp_step(
            s.target_is_tb323fu,
            s.gbl_fetched,
            s.arb_need,
            s.cfg.wipe,
            s.cfg.modify_region,
        ),
        region_pair: s.region_pair,
        country: s.cfg.wipe && s.cfg.country != CountryTarget::NoTarget,
    }
}

fn start_writes_exec(s: FlashRun) -> (r: (FlashRun, FlashAction))
    ensures
        r == start_writes(s),
{
    (
        FlashRun { stage: FlashStage::Writing(WriteStep::Rawprogram), ..s },
        FlashAction::Write(WriteStep::Rawprogram),
    )
}

fn gbl_stage_exec(s: FlashRun) -> (r: (FlashRun, FlashAction))
    ensures
        r == gbl_stage(s),
{
    if gbl_fetch_needed(s.target_is_tb323fu, s.arb_need, s.cfg.modify_region) {
        (FlashRun { stage: FlashStage::FetchingGbl, ..s }, FlashAction::FetchGbl { arb: s.arb_need })
    } else {
        start_writes_exec(s)
    }
}

fn arb_stage_exec(s: FlashRun) -> (r: (FlashRun, FlashAction))
    ensures
        r == arb_stage(s),
{
    match arb_path(s.mode, s.target_is_tb323fu) {
        ArbPath::Bypassed => gbl_stage_exec(s),
        ArbPath::Tb323fuOverlays => (
            FlashRun { stage: FlashStage::BuildingOverlays { resign: false }, ..s },
            FlashAction::BuildOverlays { resign: false },
        ),
        ArbPath::PerLocation => if needs_edl_index_read(
            s.edl_floors,
            s.device_index,
            s.rollback_protected,
        ) {
            (FlashRun { stage: FlashStage::ReadingEdlIndex, ..s }, FlashAction::ReadEdlIndex)
        } else {
            (
                FlashRun {
                    stage: FlashStage::Location(0),
                    floors: location_floors(s.edl_floors, s.device_index),
                    overlays: StagedOverlays::PerLocation { boot: false, vbs: false },
                    ..s
                },
                FlashAction::AnalyzeLocation(0),
            )
        },
    }
}

fn after_xmls_exec(s: FlashRun) -> (r: (FlashRun, FlashAction))
    ensures
        r == after_xmls(s),
{
    if s.firmware_key == KeyClass::Fixed && !s.target_is_tb323fu {
        (FlashRun { stage: FlashStage::ReadingDeviceVbmeta, ..s }, FlashAction::ReadDeviceVbmeta)
    } else {
        arb_stage_exec(s)
    }
}

fn next_location_exec(s: FlashRun, i: usize) -> (r: (FlashRun, FlashAction))
    ensures
        r == next_location(s, i),
{
    if i == 0 {
        (FlashRun { stage: FlashStage::Location(1), ..s }, FlashAction::AnalyzeLocation(1))
    } else {
        gbl_stage_exec(s)
    }
}

fn location_floor_exec(s: FlashRun, i: usize) -> (r: Option<u64>)
    ensures
        r == location_floor(s, i),
{
    if i == 0 {
        s.floors.0
    } else {
        s.floors.1
    }
}

fn mark_staged_exec(o: StagedOverlays, i: usize) -> (r: StagedOverlays)
    ensures
        r == mark_staged(o, i),
{
    match o {
        StagedOverlays::PerLocation { boot, vbs } => if i == 0 {
            StagedOverlays::PerLocation { boot: true, vbs }
        } else {
            StagedOverlays::PerLocation { boot, vbs: true }
        },
        _ => o,
    }
}

fn gates_and_region_exec(s1: FlashRun, f: FirmwareFacts) -> (r: (FlashRun, FlashAction))
    ensures
        r == gates_and_region(s1, f),
{
    match pre_edl_gate(
        s1.mode,
        s1.fastboot_reachable,
        s1.cfg.conn == ConnectionStatus::Edl,
        f.firmware_key,
        s1.cfg.modify_region,
        f.target_is_tb323fu,
    ) {
        Err(PreEdlAbort::RollbackOnFastbootUnreachable) => stop_exec(
            s1,
            FlashError::PreEdl(PreEdlAbort::RollbackOnFastbootUnreachable),
            StopRecovery::AdbReboot,
        ),
        Err(e) => stop_exec(s1, FlashError::PreEdl(e), pre_edl_recovery_exec(s1)),
        Ok(()) => match region_step(
            s1.cfg.modify_region,
            f.tb323fu_skip_region,
            f.has_vendor_boot,
            f.has_vbmeta,
            s1.cfg.device_region,
        ) {
            RegionStep::DeviceRegionMissing => stop_exec(
                s1,
                FlashError::RegionMissingDeviceRegion,
                pre_edl_recovery_exec(s1),
            ),
            RegionStep::Convert(d) => (
                FlashRun { stage: FlashStage::BuildingRegion, ..s1 },
                FlashAction::BuildRegionChain(d),
            ),
            _ => (
                FlashRun { stage: FlashStage::DecryptingXml, gates_passed: true, ..s1 },
                FlashAction::DecryptXml,
            ),
        },
    }
}

fn after_inspection_exec(s: FlashRun, f: FirmwareFacts) -> (r: (FlashRun, FlashAction))
    ensures
        r == after_inspection(s, f),
{
    let s1 = FlashRun {
        target_is_tb323fu: f.target_is_tb323fu,
        firmware_key: f.firmware_key,
        mode: effective_rollback_mode(f.target_is_tb323fu, s.mode),
        ..s
    };
    if f.model_mismatch && s.cfg.conn != ConnectionStatus::Edl {
        stop_exec(s1, FlashError::ModelMismatchPreEdl, pre_edl_recovery_exec(s1))
    } else {
        gates_and_region_exec(s1, f)
    }
}

fn after_device_key_exec(s: FlashRun, k: Option<DeviceKey>) -> (r: (FlashRun, FlashAction))
    ensures
        r == after_device_key(s, k),
{
    match k {
        None => stop_exec(s, FlashError::DeviceVbmetaFailed, session_recovery_exec(s)),
        Some(k) => match fixed_firmware_device_policy(k.class) {
            FixedFirmwareDevicePolicy::AbortUnknown => stop_exec(
                s,
                FlashError::DeviceKeyUnknown,
                session_recovery_exec(s),
            ),
            FixedFirmwareDevicePolicy::KeepFixed => if fixed_install_refused(
                s.cfg.modify_region,
                k.firmware_boot_index,
                k.firmware_vbs_index,
                k.boot_floor,
                k.vbs_floor,
            ) {
                stop_exec(s, FlashError::Key2DeviceConstraint, session_recovery_exec(s))
            } else {
                arb_stage_exec(FlashRun { mode: RollbackMode::Off, ..s })
            },
            FixedFirmwareDevicePolicy::ResignTestkey => (
                FlashRun { stage: FlashStage::BuildingOverlays { resign: true }, ..s },
                FlashAction::BuildOverlays { resign: true },
            ),
        },
    }
}

/// Start a flash: probe Fastboot first.
pub fn flash_start(cfg: FlashConfig) -> (r: (FlashRun, FlashAction))
    ensures
        r == (flash_start_spec(cfg), FlashAction::ProbeFastboot),
{
    (
        FlashRun {
            stage: FlashStage::Probing { bridged: false },
            cfg: FlashSettings {
                conn: cfg.conn,
                modify_region: cfg.modify_region,
                wipe: cfg.wipe,
                country: cfg.country,
                device_region: cfg.device_region,
                rollback_protected_model: cfg.rollback_protected_model,
            },
            mode: cfg.mode,
            fastboot_reachable: false,
            device_index: None,
            target_is_tb323fu: false,
            firmware_key: KeyClass::Unknown,
            gates_passed: false,
            session_open: false,
            region_pair: false,
            edl_floors: None,
            rollback_protected: cfg.rollback_protected_model,
            floors: (None, None),
            overlays: StagedOverlays::NoOverlays,
            abl_backup: false,
            arb_need: false,
            gbl_fetched: false,
        },
        FlashAction::ProbeFastboot,
    )
}

/// One step of the flash ([`flash_step_spec`]).
pub fn flash_step(state: &FlashRun, event: FlashEvent) -> (r: (FlashRun, FlashAction))
    ensures
        r == flash_step_spec(*state, event),
{
    let s = *state;
    match (s.stage, event) {
        (FlashStage::Probing { bridged }, FlashEvent::FastbootProbed { reachable, device_index }) => {
            if !reachable && !bridged && is_adb_connected(s.cfg.conn) {
                (
                    FlashRun { stage: FlashStage::Probing { bridged: true }, ..s },
                    FlashAction::BridgeAdbToBootloader,
                )
            } else {
                (
                    FlashRun {
                        stage: FlashStage::Inspecting,
                        fastboot_reachable: reachable,
                        device_index,
                        ..s
                    },
                    FlashAction::InspectFirmware,
                )
            }
        },
        (FlashStage::Inspecting, FlashEvent::FirmwareInspected(f)) => after_inspection_exec(s, f),
        (FlashStage::BuildingRegion, FlashEvent::RegionBuilt(b)) => match b {
            RegionBuild::Failed => stop_exec(
                s,
                FlashError::RegionConversionFailed,
                pre_edl_recovery_exec(s),
            ),
            RegionBuild::Built => (
                FlashRun {
                    stage: FlashStage::DecryptingXml,
                    gates_passed: true,
                    region_pair: true,
                    ..s
                },
                FlashAction::DecryptXml,
            ),
            RegionBuild::Skipped => (
                FlashRun { stage: FlashStage::DecryptingXml, gates_passed: true, ..s },
                FlashAction::DecryptXml,
            ),
        },
        (FlashStage::DecryptingXml, FlashEvent::XmlDecrypted { ok, loader_found }) => {
            if !ok {
                stop_exec(s, FlashError::DecryptFailed, StopRecovery::Leave)
            } else if !loader_found {
                (
                    FlashRun { stage: FlashStage::Finished, ..s },
                    FlashAction::Finish(FlashOutcome::NoLoader),
                )
            } else {
                (FlashRun { stage: FlashStage::EnteringEdl, ..s }, FlashAction::EnterEdl)
            }
        },
        (FlashStage::EnteringEdl, FlashEvent::EdlEntered { ok }) => if ok {
            (FlashRun { stage: FlashStage::OpeningSession, ..s }, FlashAction::OpenSession)
        } else {
            stop_exec(s, FlashError::EdlTransitionFailed, StopRecovery::Leave)
        },
        (FlashStage::OpeningSession, FlashEvent::SessionOpened { ok }) => if !ok {
            stop_exec(s, FlashError::SessionOpenFailed, StopRecovery::Leave)
        } else if s.cfg.conn == ConnectionStatus::Edl {
            (
                FlashRun { stage: FlashStage::EdlIdentity, session_open: true, ..s },
                FlashAction::ProbeEdlIdentity,
            )
        } else {
            (
                FlashRun { stage: FlashStage::CollectingXmls, session_open: true, ..s },
                FlashAction::CollectXmls,
            )
        },
        (
            FlashStage::EdlIdentity,
            FlashEvent::EdlIdentityRead { floors, rollback_protected },
        ) => match floors {
            Err(e) => stop_exec(s, FlashError::EdlProbe(e), StopRecovery::ResetToEdl),
            Ok(None) => if tb322fc_prc_only_violation(s.cfg.modify_region, s.cfg.country) {
                stop_exec(s, FlashError::Tb322fcPrcOnly, StopRecovery::ResetToEdl)
            } else {
                (
                    FlashRun {
                        stage: FlashStage::CollectingXmls,
                        mode: RollbackMode::Off,
                        rollback_protected,
                        ..s
                    },
                    FlashAction::CollectXmls,
                )
            },
            Ok(Some(f)) => (
                FlashRun {
                    stage: FlashStage::CollectingXmls,
                    edl_floors: Some(f),
                    rollback_protected,
                    ..s
                },
                FlashAction::CollectXmls,
            ),
        },
        (FlashStage::CollectingXmls, FlashEvent::XmlsCollected { ok, rawprogram_count }) => {
            if !ok {
                stop_exec(s, FlashError::XmlSelectionFailed, StopRecovery::Leave)
            } else if rawprogram_count == 0 {
                stop_exec(s, FlashError::NoRawprogramXml, StopRecovery::Leave)
            } else {
                after_xmls_exec(s)
            }
        },
        (FlashStage::ReadingDeviceVbmeta, FlashEvent::DeviceVbmetaRead(k)) => after_device_key_exec(
            s,
            k,
        ),
        (FlashStage::BuildingOverlays { resign }, FlashEvent::OverlaysBuilt(built)) => match built {
            None => stop_exec(s, FlashError::OverlayBuildFailed, StopRecovery::Leave),
            Some((n, need)) => if resign {
                (
                    FlashRun {
                        stage: FlashStage::BackingUpAbl,
                        overlays: StagedOverlays::Chain(n),
                        ..s
                    },
                    FlashAction::BackupAbl,
                )
            } else {
                gbl_stage_exec(FlashRun { overlays: StagedOverlays::Chain(n), arb_need: need, ..s })
            },
        },
        (FlashStage::BackingUpAbl, FlashEvent::AblBackedUp { ok }) => if ok {
            arb_stage_exec(FlashRun { abl_backup: true, mode: RollbackMode::Off, ..s })
        } else {
            stop_exec(s, FlashError::AblBackupFailed, session_recovery_exec(s))
        },
        (FlashStage::ReadingEdlIndex, FlashEvent::EdlIndexRead(idx)) => match idx {
            None => stop_exec(s, FlashError::EdlIndexReadFailed, StopRecovery::Leave),
            Some(i) => (
                FlashRun {
                    stage: FlashStage::Location(0),
                    floors: (Some(i), Some(i)),
                    overlays: StagedOverlays::PerLocation { boot: false, vbs: false },
                    ..s
                },
                FlashAction::AnalyzeLocation(0),
            ),
        },
        (FlashStage::Location(i), FlashEvent::LocationAnalyzed(l)) => if !l.usable {
            next_location_exec(s, i)
        } else {
            match arb_step_for(
                i == 1,
                l.needs_patch,
                location_floor_exec(s, i),
                l.algorithm_none,
                l.key,
            ) {
                ArbLocationStep::AbortUnknownKey => stop_exec(
                    s,
                    FlashError::SigningKeyUnknown,
                    StopRecovery::ResetTolerant,
                ),
                ArbLocationStep::Resign(t) => (
                    FlashRun { stage: FlashStage::Patching(i), ..s },
                    FlashAction::PatchLocation(i, ArbLocationStep::Resign(t)),
                ),
                ArbLocationStep::AddHashFooter(t) => (
                    FlashRun { stage: FlashStage::Patching(i), ..s },
                    FlashAction::PatchLocation(i, ArbLocationStep::AddHashFooter(t)),
                ),
                _ => next_location_exec(s, i),
            }
        },
        (FlashStage::Patching(i), FlashEvent::LocationPatched(p)) => match p {
            PatchOutcome::CopyFailed => stop_exec(s, FlashError::ImageCopyFailed, StopRecovery::Leave),
            PatchOutcome::PatchFailed => next_location_exec(s, i),
            PatchOutcome::Staged => next_location_exec(
                FlashRun { overlays: mark_staged_exec(s.overlays, i), ..s },
                i,
            ),
        },
        (FlashStage::FetchingGbl, FlashEvent::GblFetched { ok }) => if ok {
            start_writes_exec(FlashRun { gbl_fetched: true, ..s })
        } else {
            stop_exec(s, FlashError::GblFetchFailed, StopRecovery::Leave)
        },
        (FlashStage::Writing(step), FlashEvent::WriteDone { ok }) => match after_write_step(
            write_plan_of(&s),
            step,
            ok,
        ) {
            WriteNext::Do(next) => (
                FlashRun { stage: FlashStage::Writing(next), ..s },
                FlashAction::Write(next),
            ),
            WriteNext::RestoreAblThenAbort(e) => (
                FlashRun { stage: FlashStage::Finished, ..s },
                FlashAction::RestoreAblThenStop(FlashError::Write(e)),
            ),
            WriteNext::Abort(e) => stop_exec(s, FlashError::Write(e), StopRecovery::Leave),
            WriteNext::Done => (
                FlashRun { stage: FlashStage::Finished, ..s },
                FlashAction::Finish(FlashOutcome::Flashed),
            ),
        },
        _ => (s, FlashAction::Unexpected),
    }
}

} // verus!
