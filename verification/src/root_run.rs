//! The device phase of rooting, as a step machine: the stock boot (and
//! vbmeta) images are dumped and backed up over EDL, the patched images are
//! built, then written back. The caller performs each action and reports
//! its outcome; every failure of the device phase ends with a best-effort
//! reset of the device.

use vstd::prelude::*;

verus! {

/// A partition the root flow reads or writes.
#[derive(Debug, Clone, Copy, PartialEq, Eq, Structural)]
pub enum RootPartition {
    Boot,
    Efisp,
    Vbmeta,
}

/// Where the device phase stands.
#[derive(Debug, Clone, Copy, PartialEq, Eq, Structural)]
pub enum RootStage {
    EnteringEdl,
    /// Opening the EDL session, for the dump or (`for_flash`) the writes.
    OpeningSession { for_flash: bool },
    DumpingBoot,
    DumpingEfisp,
    FetchingGbl,
    DumpingVbmeta,
    BackingUp,
    ResettingToEdl,
    Patching,
    Flashing(RootPartition),
    Finished,
}

/// The state of the device phase.
#[derive(Debug, Clone, Copy, PartialEq, Eq, Structural)]
pub struct RootRun {
    pub stage: RootStage,
    /// The dumped boot image is TB323FU's.
    pub is_tb323fu: bool,
    /// An empty `efisp` was found and a GBL must be provisioned.
    pub gbl_needed: bool,
    /// The stock images were copied into the backup folder.
    pub backed_up: bool,
    /// The stock `vbmeta` was dumped and backed up too.
    pub vbmeta_backed_up: bool,
    /// The patch produced a `vbmeta` to write.
    pub patched_vbmeta: bool,
    pub efisp_flashed: bool,
}

/// What the caller reports back.
#[derive(Debug, Clone, Copy, PartialEq, Eq, Structural)]
pub enum RootEvent {
    EdlEntered { ok: bool },
    SessionOpened { ok: bool },
    /// Boot dumped; `is_tb323fu` from its AVB fingerprint.
    BootDumped { ok: bool, is_tb323fu: bool },
    EfispDumped { ok: bool, empty: bool },
    GblFetched { ok: bool },
    VbmetaDumped { ok: bool },
    BackedUp { ok: bool },
    ResetToEdlDone { ok: bool },
    /// The patched artifacts were built, with or without a `vbmeta`.
    Patched { ok: bool, has_vbmeta: bool },
    Written { ok: bool },
}

/// Why the device phase failed.
#[derive(Debug, Clone, Copy, PartialEq, Eq, Structural)]
pub enum RootError {
    EdlTransitionFailed,
    SessionOpenFailed,
    DumpFailed(RootPartition),
    GblFetchFailed,
    BackupFailed,
    ResetToEdlFailed,
    PatchFailed,
    EfispProvisionFailed,
    FlashFailed(RootPartition),
}

/// What the caller does next.
#[derive(Debug, Clone, Copy, PartialEq, Eq, Structural)]
pub enum RootAction {
    EnterEdl,
    OpenSession { for_flash: bool },
    Dump(RootPartition),
    FetchGbl,
    /// Copy the dumped boot (and `vbmeta` when `vbmeta`) into the backup
    /// folder.
    BackUp { vbmeta: bool },
    ResetToEdl,
    BuildPatched,
    Flash(RootPartition),
    /// Reset the device (tolerantly) and install the manager app: done.
    FinishWithReset,
    /// Reopen the session and reset the device (best effort), then fail.
    FailWithReset(RootError),
    /// The event does not belong to the current stage.
    Unexpected,
}

/// The state the device phase starts in, and its first action.
pub open spec fn root_start_spec() -> (RootRun, RootAction) {
    (
        RootRun {
            stage: RootStage::EnteringEdl,
            is_tb323fu: false,
            gbl_needed: false,
            backed_up: false,
            vbmeta_backed_up: false,
            patched_vbmeta: false,
            efisp_flashed: false,
        },
        RootAction::EnterEdl,
    )
}

/// One step of the device phase.
pub open spec fn root_step_spec(s: RootRun, event: RootEvent) -> (RootRun, RootAction) {
    match (s.stage, event) {
        (RootStage::EnteringEdl, RootEvent::EdlEntered { ok }) => if ok {
            (
                RootRun { stage: RootStage::OpeningSession { for_flash: false }, ..s },
                RootAction::OpenSession { for_flash: false },
            )
        } else {
            (
                RootRun { stage: RootStage::Finished, ..s },
                RootAction::FailWithReset(RootError::EdlTransitionFailed),
            )
        },
        (RootStage::OpeningSession { for_flash }, RootEvent::SessionOpened { ok }) => if !ok {
            (
                RootRun { stage: RootStage::Finished, ..s },
                RootAction::FailWithReset(RootError::SessionOpenFailed),
            )
        } else if !for_flash {
            (
                RootRun { stage: RootStage::DumpingBoot, ..s },
                RootAction::Dump(RootPartition::Boot),
            )
        } else if s.gbl_needed {
            (
                RootRun { stage: RootStage::Flashing(RootPartition::Efisp), ..s },
                RootAction::Flash(RootPartition::Efisp),
            )
        } else {
            (
                RootRun { stage: RootStage::Flashing(RootPartition::Boot), ..s },
                RootAction::Flash(RootPartition::Boot),
            )
        },
        (RootStage::DumpingBoot, RootEvent::BootDumped { ok, is_tb323fu }) => if !ok {
            (
                RootRun { stage: RootStage::Finished, ..s },
                RootAction::FailWithReset(RootError::DumpFailed(RootPartition::Boot)),
            )
        } else if is_tb323fu {
            (
                RootRun { stage: RootStage::DumpingEfisp, is_tb323fu: true, ..s },
                RootAction::Dump(RootPartition::Efisp),
            )
        } else {
            (
                RootRun { stage: RootStage::DumpingVbmeta, is_tb323fu: false, ..s },
                RootAction::Dump(RootPartition::Vbmeta),
            )
        },
        (RootStage::DumpingEfisp, RootEvent::EfispDumped { ok, empty }) => if !ok {
            (
                RootRun { stage: RootStage::Finished, ..s },
                RootAction::FailWithReset(RootError::DumpFailed(RootPartition::Efisp)),
            )
        } else if empty {
            (RootRun { stage: RootStage::FetchingGbl, ..s }, RootAction::FetchGbl)
        } else {
            (
                RootRun { stage: RootStage::BackingUp, ..s },
                RootAction::BackUp { vbmeta: false },
            )
        },
        (RootStage::FetchingGbl, RootEvent::GblFetched { ok }) => if ok {
            (
                RootRun { stage: RootStage::BackingUp, gbl_needed: true, ..s },
                RootAction::BackUp { vbmeta: false },
            )
        } else {
            (
                RootRun { stage: RootStage::Finished, ..s },
                RootAction::FailWithReset(RootError::GblFetchFailed),
            )
        },
        (RootStage::DumpingVbmeta, RootEvent::VbmetaDumped { ok }) => if ok {
            (
                RootRun { stage: RootStage::BackingUp, ..s },
                RootAction::BackUp { vbmeta: true },
            )
        } else {
            (
                RootRun { stage: RootStage::Finished, ..s },
                RootAction::FailWithReset(RootError::DumpFailed(RootPartition::Vbmeta)),
            )
        },
        (RootStage::BackingUp, RootEvent::BackedUp { ok }) => if ok {
            (
                RootRun {
                    stage: RootStage::ResettingToEdl,
                    backed_up: true,
                    vbmeta_backed_up: !s.is_tb323fu,
                    ..s
                },
                RootAction::ResetToEdl,
            )
        } else {
            (
                RootRun { stage: RootStage::Finished, ..s },
                RootAction::FailWithReset(RootError::BackupFailed),
            )
        },
        (RootStage::ResettingToEdl, RootEvent::ResetToEdlDone { ok }) => if ok {
            (RootRun { stage: RootStage::Patching, ..s }, RootAction::BuildPatched)
        } else {
            (
                RootRun { stage: RootStage::Finished, ..s },
                RootAction::FailWithReset(RootError::ResetToEdlFailed),
            )
        },
        (RootStage::Patching, RootEvent::Patched { ok, has_vbmeta }) => if ok {
            (
                RootRun {
                    stage: RootStage::OpeningSession { for_flash: true },
                    patched_vbmeta: has_vbmeta,
                    ..s
                },
                RootAction::OpenSession { for_flash: true },
            )
        } else {
            (
                RootRun { stage: RootStage::Finished, ..s },
                RootAction::FailWithReset(RootError::PatchFailed),
            )
        },
        (RootStage::Flashing(p), RootEvent::Written { ok }) => if !ok {
            (
                RootRun { stage: RootStage::Finished, ..s },
                RootAction::FailWithReset(
                    if p == RootPartition::Efisp {
                        RootError::EfispProvisionFailed
                    } else {
                        RootError::FlashFailed(p)
                    },
                ),
            )
        } else if p == RootPartition::Efisp {
            (
                RootRun {
                    stage: RootStage::Flashing(RootPartition::Boot),
                    efisp_flashed: true,
                    ..s
                },
                RootAction::Flash(RootPartition::Boot),
            )
        } else if p == RootPartition::Boot && s.patched_vbmeta {
            (
                RootRun { stage: RootStage::Flashing(RootPartition::Vbmeta), ..s },
                RootAction::Flash(RootPartition::Vbmeta),
            )
        } else {
            (RootRun { stage: RootStage::Finished, ..s }, RootAction::FinishWithReset)
        },
        _ => (s, RootAction::Unexpected),
    }
}

/// What every state of the device phase satisfies.
pub open spec fn root_inv(s: RootRun) -> bool {
    &&& (s.stage is Flashing || s.stage is ResettingToEdl || s.stage is Patching
        || s.stage == (RootStage::OpeningSession { for_flash: true })) ==> s.backed_up
    &&& s.vbmeta_backed_up ==> s.backed_up
    &&& (s.stage is EnteringEdl || s.stage == (RootStage::OpeningSession { for_flash: false })
        || s.stage is DumpingBoot || s.stage is DumpingEfisp || s.stage is FetchingGbl
        || s.stage is DumpingVbmeta || s.stage is BackingUp) ==> !s.backed_up
    &&& s.backed_up && !s.is_tb323fu ==> s.vbmeta_backed_up
    &&& s.stage == RootStage::Flashing(RootPartition::Efisp) ==> s.gbl_needed
    &&& (s.stage == RootStage::Flashing(RootPartition::Boot) || s.stage == RootStage::Flashing(
        RootPartition::Vbmeta,
    )) && s.gbl_needed ==> s.efisp_flashed
}

/// Law: the device phase starts in a state of the invariant.
pub proof fn lemma_root_start_inv()
    ensures
        root_inv(root_start_spec().0),
{
}

/// Law: every step keeps the invariant.
pub proof fn lemma_root_step_keeps_inv(s: RootRun, e: RootEvent)
    requires
        root_inv(s),
    ensures
        root_inv(root_step_spec(s, e).0),
{
}

/// Law: the stock boot (and, but for TB323FU, `vbmeta`) is backed up before
/// any write; a provisioned `efisp` is written before the patched boot; and
/// a failed `efisp` write ends the run with a reset and no boot or `vbmeta`
/// write.
pub proof fn lemma_root_write_order(s: RootRun, e: RootEvent)
    requires
        root_inv(s),
    ensures
        root_step_spec(s, e).1 is Flash ==> root_step_spec(s, e).0.backed_up && (
        !root_step_spec(s, e).0.is_tb323fu ==> root_step_spec(s, e).0.vbmeta_backed_up),
        root_step_spec(s, e).1 == RootAction::Flash(RootPartition::Boot)
            && root_step_spec(s, e).0.gbl_needed ==> root_step_spec(s, e).0.efisp_flashed,
        s.stage == RootStage::Flashing(RootPartition::Efisp) && e == (RootEvent::Written {
            ok: false,
        }) ==> root_step_spec(s, e) == (
            RootRun { stage: RootStage::Finished, ..s },
            RootAction::FailWithReset(RootError::EfispProvisionFailed),
        ),
{
    lemma_root_step_keeps_inv(s, e);
}

/// Law: a finished device phase stays finished, whatever is reported: no
/// write follows a failure.
pub proof fn lemma_root_finished_is_final(s: RootRun, e: RootEvent)
    requires
        s.stage == RootStage::Finished,
    ensures
        root_step_spec(s, e) == (s, RootAction::Unexpected),
{
}

/// Law: the device phase never ends without resetting the device: every
/// step that finishes it, on success or on any failure, resets it.
pub proof fn lemma_root_ends_with_reset(s: RootRun, e: RootEvent)
    requires
        s.stage != RootStage::Finished,
    ensures
        root_step_spec(s, e).0.stage == RootStage::Finished ==> (root_step_spec(s, e).1
            == RootAction::FinishWithReset || root_step_spec(s, e).1 is FailWithReset),
{
}

/// Start the device phase.
pub fn root_start() -> (r: (RootRun, RootAction))
    ensures
        r == root_start_spec(),
{
    (
        RootRun {
            stage: RootStage::EnteringEdl,
            is_tb323fu: false,
            gbl_needed: false,
            backed_up: false,
            vbmeta_backed_up: false,
            patched_vbmeta: false,
            efisp_flashed: false,
        },
        RootAction::EnterEdl,
    )
}

/// One step of the device phase ([`root_step_spec`]).
pub fn root_step(state: &RootRun, event: RootEvent) -> (r: (RootRun, RootAction))
    ensures
        r == root_step_spec(*state, event),
{
    let s = *state;

    match (s.stage, event) {
        (RootStage::EnteringEdl, RootEvent::EdlEntered { ok }) => if ok {
            (
                RootRun { stage: RootStage::OpeningSession { for_flash: false }, ..s },
                RootAction::OpenSession { for_flash: false },
            )
        } else {
            (
                RootRun { stage: RootStage::Finished, ..s },
                RootAction::FailWithReset(RootError::EdlTransitionFailed),
            )
        },
        (RootStage::OpeningSession { for_flash }, RootEvent::SessionOpened { ok }) => if !ok {
            (
                RootRun { stage: RootStage::Finished, ..s },
                RootAction::FailWithReset(RootError::SessionOpenFailed),
            )
        } else if !for_flash {
            (
                RootRun { stage: RootStage::DumpingBoot, ..s },
                RootAction::Dump(RootPartition::Boot),
            )
        } else if s.gbl_needed {
            (
                RootRun { stage: RootStage::Flashing(RootPartition::Efisp), ..s },
                RootAction::Flash(RootPartition::Efisp),
            )
        } else {
            (
                RootRun { stage: RootStage::Flashing(RootPartition::Boot), ..s },
                RootAction::Flash(RootPartition::Boot),
            )
        },
        (RootStage::DumpingBoot, RootEvent::BootDumped { ok, is_tb323fu }) => if !ok {
            (
                RootRun { stage: RootStage::Finished, ..s },
                RootAction::FailWithReset(RootError::DumpFailed(RootPartition::Boot)),
            )
        } else if is_tb323fu {
            (
                RootRun { stage: RootStage::DumpingEfisp, is_tb323fu: true, ..s },
                RootAction::Dump(RootPartition::Efisp),
            )
        } else {
            (
                RootRun { stage: RootStage::DumpingVbmeta, is_tb323fu: false, ..s },
                RootAction::Dump(RootPartition::Vbmeta),
            )
        },
        (RootStage::DumpingEfisp, RootEvent::EfispDumped { ok, empty }) => if !ok {
            (
                RootRun { stage: RootStage::Finished, ..s },
                RootAction::FailWithReset(RootError::DumpFailed(RootPartition::Efisp)),
            )
        } else if empty {
            (RootRun { stage: RootStage::FetchingGbl, ..s }, RootAction::FetchGbl)
        } else {
            (
                RootRun { stage: RootStage::BackingUp, ..s },
                RootAction::BackUp { vbmeta: false },
            )
        },
        (RootStage::FetchingGbl, RootEvent::GblFetched { ok }) => if ok {
            (
                RootRun { stage: RootStage::BackingUp, gbl_needed: true, ..s },
                RootAction::BackUp { vbmeta: false },
            )
        } else {
            (
                RootRun { stage: RootStage::Finished, ..s },
                RootAction::FailWithReset(RootError::GblFetchFailed),
            )
        },
        (RootStage::DumpingVbmeta, RootEvent::VbmetaDumped { ok }) => if ok {
            (
                RootRun { stage: RootStage::BackingUp, ..s },
                RootAction::BackUp { vbmeta: true },
            )
        } else {
            (
                RootRun { stage: RootStage::Finished, ..s },
                RootAction::FailWithReset(RootError::DumpFailed(RootPartition::Vbmeta)),
            )
        },
        (RootStage::BackingUp, RootEvent::BackedUp { ok }) => if ok {
            (
                RootRun {
                    stage: RootStage::ResettingToEdl,
                    backed_up: true,
                    vbmeta_backed_up: !s.is_tb323fu,
                    ..s
                },
                RootAction::ResetToEdl,
            )
        } else {
            (
                RootRun { stage: RootStage::Finished, ..s },
                RootAction::FailWithReset(RootError::BackupFailed),
            )
        },
        (RootStage::ResettingToEdl, RootEvent::ResetToEdlDone { ok }) => if ok {
            (RootRun { stage: RootStage::Patching, ..s }, RootAction::BuildPatched)
        } else {
            (
                RootRun { stage: RootStage::Finished, ..s },
                RootAction::FailWithReset(RootError::ResetToEdlFailed),
            )
        },
        (RootStage::Patching, RootEvent::Patched { ok, has_vbmeta }) => if ok {
            (
                RootRun {
                    stage: RootStage::OpeningSession { for_flash: true },
                    patched_vbmeta: has_vbmeta,
                    ..s
                },
                RootAction::OpenSession { for_flash: true },
            )
        } else {
            (
                RootRun { stage: RootStage::Finished, ..s },
                RootAction::FailWithReset(RootError::PatchFailed),
            )
        },
        (RootStage::Flashing(p), RootEvent::Written { ok }) => if !ok {
            (
                RootRun { stage: RootStage::Finished, ..s },
                RootAction::FailWithReset(
                    if p == RootPartition::Efisp {
                        RootError::EfispProvisionFailed
                    } else {
                        RootError::FlashFailed(p)
                    },
                ),
            )
        } else if p == RootPartition::Efisp {
            (
                RootRun {
                    stage: RootStage::Flashing(RootPartition::Boot),
                    efisp_flashed: true,
                    ..s
                },
                RootAction::Flash(RootPartition::Boot),
            )
        } else if p == RootPartition::Boot && s.patched_vbmeta {
            (
                RootRun { stage: RootStage::Flashing(RootPartition::Vbmeta), ..s },
                RootAction::Flash(RootPartition::Vbmeta),
            )
        } else {
            (RootRun { stage: RootStage::Finished, ..s }, RootAction::FinishWithReset)
        },
        _ => (s, RootAction::Unexpected),
    }
}

} // verus!
