//! Boot Recovery as a step machine: after its checks, the device goes to
//! EDL, `vendor_boot` and `vbmeta` are dumped off both slots, the model is
//! checked, each complete slot is region-patched and re-signed, and the
//! prepared images are written back. The caller performs the actions and
//! reports their outcome.

use vstd::prelude::*;
use crate::loader::{loader_file_name_ok, has_extension_ignore_ascii_case};
use crate::rollback::Slot;
use crate::sysupdate::{RescueImage, RescueRegion};

verus! {

/// Why a Boot Recovery stops.
#[derive(Debug, Clone, Copy, PartialEq, Eq, Structural)]
pub enum RescueError {
    LoaderNotSelected,
    RegionNotSelected,
    LoaderMissing,
    LoaderBadExtension,
    WorkDirFailed,
    EdlTransitionFailed,
    SessionOpenFailed,
    /// No `vendor_boot` / `vbmeta` on LUN 0: an unsupported layout.
    NothingDumped,
    ModelMismatch,
    /// No slot was patched and re-signed.
    NothingToFlash,
    FlashFailed(RescueImage, Slot),
}

/// The checks made, in this order, before Boot Recovery touches anything:
/// `loader_name` is the loader's file name, `is_encrypted_manifest` whether
/// it is the encrypted Sahara manifest.
pub fn rescue_preflight(
    loader_selected: bool,
    region: Option<RescueRegion>,
    loader_is_file: bool,
    loader_name: &str,
    is_encrypted_manifest: bool,
) -> (r: Result<RescueRegion, RescueError>)
    ensures
        r == (if !loader_selected {
            Err(RescueError::LoaderNotSelected)
        } else {
            match region {
                None => Err(RescueError::RegionNotSelected),
                Some(g) => if !loader_is_file {
                    Err(RescueError::LoaderMissing)
                } else if !(has_extension_ignore_ascii_case(loader_name@, "melf"@)
                    || has_extension_ignore_ascii_case(loader_name@, "mbn"@)
                    || has_extension_ignore_ascii_case(loader_name@, "elf"@)
                    || has_extension_ignore_ascii_case(loader_name@, "xml"@)
                    || is_encrypted_manifest) {
                    Err(RescueError::LoaderBadExtension)
                } else {
                    Ok(g)
                },
            }
        }),
{
    if !loader_selected {
        return Err(RescueError::LoaderNotSelected);
    }
    let g = match region {
        None => {
            return Err(RescueError::RegionNotSelected);
        },
        Some(g) => g,
    };
    if !loader_is_file {
        return Err(RescueError::LoaderMissing);
    }
    if !loader_file_name_ok(loader_name, is_encrypted_manifest) {
        return Err(RescueError::LoaderBadExtension);
    }
    Ok(g)
}

/// Where a Boot Recovery stands.
#[derive(Debug, Clone, Copy, PartialEq, Eq, Structural)]
pub enum RescueStage {
    CreatingWorkDir,
    EnteringEdl,
    OpeningSession,
    Dumping(RescueImage, Slot),
    CheckingModel,
    Preparing(Slot),
    Flashing(RescueImage, Slot),
    Finished,
}

/// The state of a Boot Recovery.
#[derive(Debug, Clone, Copy, PartialEq, Eq, Structural)]
pub struct RescueRun {
    pub stage: RescueStage,
    pub vendor_boot_a: bool,
    pub vbmeta_a: bool,
    pub vendor_boot_b: bool,
    pub vbmeta_b: bool,
    /// Slot A / B was patched and re-signed, ready to write.
    pub prepared_a: bool,
    pub prepared_b: bool,
}

/// What the caller reports back.
#[derive(Debug, Clone, Copy, PartialEq, Eq, Structural)]
pub enum RescueEvent {
    WorkDirCreated { ok: bool },
    EdlEntered { ok: bool },
    SessionOpened { ok: bool },
    Dumped { ok: bool },
    /// The dumped `vendor_boot` names another model than the device.
    ModelChecked { mismatch: bool },
    /// Region patch, hash footer and `vbmeta` rebuild of the slot.
    SlotPrepared { ok: bool },
    Written { ok: bool },
}

/// What the caller does next.
#[derive(Debug, Clone, Copy, PartialEq, Eq, Structural)]
pub enum RescueAction {
    CreateWorkDir,
    EnterEdl,
    OpenSession,
    Dump(RescueImage, Slot),
    CheckModel,
    PrepareSlot(Slot),
    Flash(RescueImage, Slot),
    /// Stop with the error, resetting the device first when `reset`.
    Stop { error: RescueError, reset: bool },
    /// Reset the device (tolerantly): Boot Recovery is complete.
    FinishWithReset,
    /// The event does not belong to the current stage.
    Unexpected,
}

pub open spec fn was_dumped(s: RescueRun, image: RescueImage, slot: Slot) -> bool {
    match (image, slot) {
        (RescueImage::VendorBoot, Slot::A) => s.vendor_boot_a,
        (RescueImage::Vbmeta, Slot::A) => s.vbmeta_a,
        (RescueImage::VendorBoot, Slot::B) => s.vendor_boot_b,
        (RescueImage::Vbmeta, Slot::B) => s.vbmeta_b,
    }
}

pub open spec fn prepared(s: RescueRun, slot: Slot) -> bool {
    match slot {
        Slot::A => s.prepared_a,
        Slot::B => s.prepared_b,
    }
}

pub open spec fn rescue_stop(s: RescueRun, error: RescueError, reset: bool) -> (RescueRun, RescueAction) {
    (RescueRun { stage: RescueStage::Finished, ..s }, RescueAction::Stop { error, reset })
}

/// First write, once both slots were looked at.
pub open spec fn start_flash(s: RescueRun) -> (RescueRun, RescueAction) {
    if s.prepared_a {
        (
            RescueRun { stage: RescueStage::Flashing(RescueImage::VendorBoot, Slot::A), ..s },
            RescueAction::Flash(RescueImage::VendorBoot, Slot::A),
        )
    } else if s.prepared_b {
        (
            RescueRun { stage: RescueStage::Flashing(RescueImage::VendorBoot, Slot::B), ..s },
            RescueAction::Flash(RescueImage::VendorBoot, Slot::B),
        )
    } else {
        rescue_stop(s, RescueError::NothingToFlash, false)
    }
}

/// Prepare `slot` when both its images were dumped, else go on.
pub open spec fn prepare_from(s: RescueRun, slot: Slot) -> (RescueRun, RescueAction) {
    if slot == Slot::A {
        if s.vendor_boot_a && s.vbmeta_a {
            (RescueRun { stage: RescueStage::Preparing(Slot::A), ..s }, RescueAction::PrepareSlot(Slot::A))
        } else if s.vendor_boot_b && s.vbmeta_b {
            (RescueRun { stage: RescueStage::Preparing(Slot::B), ..s }, RescueAction::PrepareSlot(Slot::B))
        } else {
            start_flash(s)
        }
    } else if s.vendor_boot_b && s.vbmeta_b {
        (RescueRun { stage: RescueStage::Preparing(Slot::B), ..s }, RescueAction::PrepareSlot(Slot::B))
    } else {
        start_flash(s)
    }
}

/// After the last dump: stop when nothing was dumped, check the model when
/// a `vendor_boot` was, else prepare.
pub open spec fn after_dumps(s: RescueRun) -> (RescueRun, RescueAction) {
    if !(s.vendor_boot_a || s.vbmeta_a || s.vendor_boot_b || s.vbmeta_b) {
        rescue_stop(s, RescueError::NothingDumped, false)
    } else if s.vendor_boot_a || s.vendor_boot_b {
        (RescueRun { stage: RescueStage::CheckingModel, ..s }, RescueAction::CheckModel)
    } else {
        prepare_from(s, Slot::A)
    }
}

pub open spec fn record_dump(s: RescueRun, image: RescueImage, slot: Slot) -> RescueRun {
    match (image, slot) {
        (RescueImage::VendorBoot, Slot::A) => RescueRun { vendor_boot_a: true, ..s },
        (RescueImage::Vbmeta, Slot::A) => RescueRun { vbmeta_a: true, ..s },
        (RescueImage::VendorBoot, Slot::B) => RescueRun { vendor_boot_b: true, ..s },
        (RescueImage::Vbmeta, Slot::B) => RescueRun { vbmeta_b: true, ..s },
    }
}

/// The dump after `(image, slot)`, in the order `vendor_boot_a`,
/// `vbmeta_a`, `vendor_boot_b`, `vbmeta_b`.
pub open spec fn next_dump(s: RescueRun, image: RescueImage, slot: Slot) -> (RescueRun, RescueAction) {
    match (image, slot) {
        (RescueImage::VendorBoot, Slot::A) => (
            RescueRun { stage: RescueStage::Dumping(RescueImage::Vbmeta, Slot::A), ..s },
            RescueAction::Dump(RescueImage::Vbmeta, Slot::A),
        ),
        (RescueImage::Vbmeta, Slot::A) => (
            RescueRun { stage: RescueStage::Dumping(RescueImage::VendorBoot, Slot::B), ..s },
            RescueAction::Dump(RescueImage::VendorBoot, Slot::B),
        ),
        (RescueImage::VendorBoot, Slot::B) => (
            RescueRun { stage: RescueStage::Dumping(RescueImage::Vbmeta, Slot::B), ..s },
            RescueAction::Dump(RescueImage::Vbmeta, Slot::B),
        ),
        (RescueImage::Vbmeta, Slot::B) => after_dumps(s),
    }
}

/// The write after `(image, slot)`: a slot's `vbmeta` follows its
/// `vendor_boot`; slot B follows slot A when prepared.
pub open spec fn next_write(s: RescueRun, image: RescueImage, slot: Slot) -> (RescueRun, RescueAction) {
    if image == RescueImage::VendorBoot {
        (
            RescueRun { stage: RescueStage::Flashing(RescueImage::Vbmeta, slot), ..s },
            RescueAction::Flash(RescueImage::Vbmeta, slot),
        )
    } else if slot == Slot::A && s.prepared_b {
        (
            RescueRun { stage: RescueStage::Flashing(RescueImage::VendorBoot, Slot::B), ..s },
            RescueAction::Flash(RescueImage::VendorBoot, Slot::B),
        )
    } else {
        (RescueRun { stage: RescueStage::Finished, ..s }, RescueAction::FinishWithReset)
    }
}

/// The state a Boot Recovery starts in, once its checks passed.
pub open spec fn rescue_start_spec() -> (RescueRun, RescueAction) {
    (
        RescueRun {
            stage: RescueStage::CreatingWorkDir,
            vendor_boot_a: false,
            vbmeta_a: false,
            vendor_boot_b: false,
            vbmeta_b: false,
            prepared_a: false,
            prepared_b: false,
        },
        RescueAction::CreateWorkDir,
    )
}

/// One step of a Boot Recovery.
pub open spec fn rescue_step_spec(s: RescueRun, event: RescueEvent) -> (RescueRun, RescueAction) {
    match (s.stage, event) {
        (RescueStage::CreatingWorkDir, RescueEvent::WorkDirCreated { ok }) => if ok {
            (RescueRun { stage: RescueStage::EnteringEdl, ..s }, RescueAction::EnterEdl)
        } else {
            rescue_stop(s, RescueError::WorkDirFailed, false)
        },
        (RescueStage::EnteringEdl, RescueEvent::EdlEntered { ok }) => if ok {
            (RescueRun { stage: RescueStage::OpeningSession, ..s }, RescueAction::OpenSession)
        } else {
            rescue_stop(s, RescueError::EdlTransitionFailed, false)
        },
        (RescueStage::OpeningSession, RescueEvent::SessionOpened { ok }) => if ok {
            (
                RescueRun { stage: RescueStage::Dumping(RescueImage::VendorBoot, Slot::A), ..s },
                RescueAction::Dump(RescueImage::VendorBoot, Slot::A),
            )
        } else {
            rescue_stop(s, RescueError::SessionOpenFailed, false)
        },
        (RescueStage::Dumping(image, slot), RescueEvent::Dumped { ok }) => if ok {
            next_dump(record_dump(s, image, slot), image, slot)
        } else {
            next_dump(s, image, slot)
        },
        (RescueStage::CheckingModel, RescueEvent::ModelChecked { mismatch }) => if mismatch {
            rescue_stop(s, RescueError::ModelMismatch, true)
        } else {
            prepare_from(s, Slot::A)
        },
        (RescueStage::Preparing(slot), RescueEvent::SlotPrepared { ok }) => {
            let t = if !ok {
                s
            } else if slot == Slot::A {
                RescueRun { prepared_a: true, ..s }
            } else {
                RescueRun { prepared_b: true, ..s }
            };
            if slot == Slot::A {
                prepare_from(t, Slot::B)
            } else {
                start_flash(t)
            }
        },
        (RescueStage::Flashing(image, slot), RescueEvent::Written { ok }) => if ok {
            next_write(s, image, slot)
        } else {
            rescue_stop(s, RescueError::FlashFailed(image, slot), false)
        },
        _ => (s, RescueAction::Unexpected),
    }
}

/// What every state of a Boot Recovery satisfies.
pub open spec fn rescue_inv(s: RescueRun) -> bool {
    &&& s.prepared_a ==> s.vendor_boot_a && s.vbmeta_a
    &&& s.prepared_b ==> s.vendor_boot_b && s.vbmeta_b
    &&& s.stage matches RescueStage::Flashing(_, slot) ==> prepared(s, slot)
    &&& s.stage matches RescueStage::Preparing(slot) ==> was_dumped(s, RescueImage::VendorBoot, slot)
        && was_dumped(s, RescueImage::Vbmeta, slot)
    &&& (s.stage is CreatingWorkDir || s.stage is EnteringEdl || s.stage is OpeningSession
        || s.stage is Dumping || s.stage is CheckingModel) ==> !s.prepared_a && !s.prepared_b
}

/// Law: Boot Recovery starts in a state of the invariant.
pub proof fn lemma_rescue_start_inv()
    ensures
        rescue_inv(rescue_start_spec().0),
{
}

/// Law: every step keeps the invariant; in particular only a slot whose
/// `vendor_boot` and `vbmeta` were both dumped and then patched and
/// re-signed is ever written.
pub proof fn lemma_rescue_step_keeps_inv(s: RescueRun, e: RescueEvent)
    requires
        rescue_inv(s),
    ensures
        rescue_inv(rescue_step_spec(s, e).0),
        rescue_step_spec(s, e).1 matches RescueAction::Flash(_, slot) ==> prepared(
            rescue_step_spec(s, e).0,
            slot,
        ) && was_dumped(rescue_step_spec(s, e).0, RescueImage::VendorBoot, slot) && was_dumped(
            rescue_step_spec(s, e).0,
            RescueImage::Vbmeta,
            slot,
        ),
{
}

/// Law: the first failed write stops the run without a reset, and nothing
/// follows it; a model mismatch stops with a reset before any write.
pub proof fn lemma_rescue_failures(s: RescueRun, e: RescueEvent)
    ensures
        s.stage is Flashing && e == (RescueEvent::Written { ok: false }) ==> (rescue_step_spec(
            s,
            e,
        ).1 matches RescueAction::Stop { error, reset } && !reset && error is FlashFailed
            && rescue_step_spec(s, e).0.stage == RescueStage::Finished),
        s.stage is CheckingModel && e == (RescueEvent::ModelChecked { mismatch: true })
            ==> rescue_step_spec(s, e).1 == (RescueAction::Stop {
            error: RescueError::ModelMismatch,
            reset: true,
        }),
        s.stage == RescueStage::Finished ==> rescue_step_spec(s, e) == (s, RescueAction::Unexpected),
{
}

/// The final state and the actions of a Boot Recovery from `s` over
/// `events`.
pub open spec fn rescue_trace(s: RescueRun, events: Seq<RescueEvent>) -> (RescueRun, Seq<RescueAction>)
    decreases events.len(),
{
    if events.len() == 0 {
        (s, Seq::empty())
    } else {
        let (t, acts) = rescue_trace(s, events.drop_last());
        let (u, a) = rescue_step_spec(t, events.last());
        (u, acts.push(a))
    }
}

/// Both images of `slot` were sent to the device among `acts`.
pub open spec fn slot_written(acts: Seq<RescueAction>, slot: Slot) -> bool {
    acts.contains(RescueAction::Flash(RescueImage::VendorBoot, slot)) && acts.contains(
        RescueAction::Flash(RescueImage::Vbmeta, slot),
    )
}

/// What holds along a Boot Recovery, of its state and the actions so far.
pub open spec fn rescue_trace_inv(t: RescueRun, acts: Seq<RescueAction>) -> bool {
    &&& rescue_inv(t)
    &&& t.stage matches RescueStage::Flashing(img, sl) ==> acts.contains(RescueAction::Flash(img, sl))
        && acts.contains(RescueAction::Flash(RescueImage::VendorBoot, sl))
    &&& (t.stage matches RescueStage::Flashing(_, sl) && sl == Slot::B && t.prepared_a) ==> slot_written(
        acts,
        Slot::A,
    )
    &&& (acts.len() > 0 && acts.last() == RescueAction::FinishWithReset) ==> (t.prepared_a
        ==> slot_written(acts, Slot::A)) && (t.prepared_b ==> slot_written(acts, Slot::B))
}

proof fn lemma_push_keeps_action(acts: Seq<RescueAction>, a: RescueAction, x: RescueAction)
    ensures
        acts.contains(x) ==> acts.push(a).contains(x),
        acts.push(a).contains(a),
{
    assert(acts.push(a)[acts.len() as int] == a);
    if acts.contains(x) {
        let k = choose|k: int| 0 <= k < acts.len() && acts[k] == x;
        assert(acts.push(a)[k] == x);
    }
}

proof fn lemma_rescue_trace_step(t: RescueRun, acts: Seq<RescueAction>, e: RescueEvent)
    requires
        rescue_trace_inv(t, acts),
    ensures
        rescue_trace_inv(rescue_step_spec(t, e).0, acts.push(rescue_step_spec(t, e).1)),
{
    let (u, a) = rescue_step_spec(t, e);
    lemma_rescue_step_keeps_inv(t, e);
    let all = seq![
        RescueAction::Flash(RescueImage::VendorBoot, Slot::A),
        RescueAction::Flash(RescueImage::Vbmeta, Slot::A),
        RescueAction::Flash(RescueImage::VendorBoot, Slot::B),
        RescueAction::Flash(RescueImage::Vbmeta, Slot::B),
    ];
    lemma_push_keeps_action(acts, a, all[0]);
    lemma_push_keeps_action(acts, a, all[1]);
    lemma_push_keeps_action(acts, a, all[2]);
    lemma_push_keeps_action(acts, a, all[3]);
    assert(acts.push(a).last() == a);
}

/// Law: Boot Recovery never finishes with a prepared slot left unwritten:
/// whatever the events, when a run ends with the final reset, both the
/// `vendor_boot` and the `vbmeta` of every slot that was patched and
/// re-signed were sent to the device.
pub proof fn lemma_rescue_writes_every_prepared_slot(events: Seq<RescueEvent>)
    ensures
        ({
            let (t, acts) = rescue_trace(rescue_start_spec().0, events);
            acts.len() > 0 && acts.last() == RescueAction::FinishWithReset ==> (t.prepared_a
                ==> slot_written(acts, Slot::A)) && (t.prepared_b ==> slot_written(acts, Slot::B))
        }),
{
    lemma_rescue_trace_inv(events);
}

proof fn lemma_rescue_trace_inv(events: Seq<RescueEvent>)
    ensures
        rescue_trace_inv(
            rescue_trace(rescue_start_spec().0, events).0,
            rescue_trace(rescue_start_spec().0, events).1,
        ),
    decreases events.len(),
{
    if events.len() > 0 {
        lemma_rescue_trace_inv(events.drop_last());
        let (t, acts) = rescue_trace(rescue_start_spec().0, events.drop_last());
        lemma_rescue_trace_step(t, acts, events.last());
    }
}

/// Start a Boot Recovery whose checks passed.
pub fn rescue_start() -> (r: (RescueRun, RescueAction))
    ensures
        r == rescue_start_spec(),
{
    (
        RescueRun {
            stage: RescueStage::CreatingWorkDir,
            vendor_boot_a: false,
            vbmeta_a: false,
            vendor_boot_b: false,
            vbmeta_b: false,
            prepared_a: false,
            prepared_b: false,
        },
        RescueAction::CreateWorkDir,
    )
}

fn rescue_stop_exec(s: RescueRun, error: RescueError, reset: bool) -> (r: (RescueRun, RescueAction))
    ensures
        r == rescue_stop(s, error, reset),
{
    (RescueRun { stage: RescueStage::Finished, ..s }, RescueAction::Stop { error, reset })
}

fn start_flash_exec(s: RescueRun) -> (r: (RescueRun, RescueAction))
    ensures
        r == start_flash(s),
{
    if s.prepared_a {
        (
            RescueRun { stage: RescueStage::Flashing(RescueImage::VendorBoot, Slot::A), ..s },
            RescueAction::Flash(RescueImage::VendorBoot, Slot::A),
        )
    } else if s.prepared_b {
        (
            RescueRun { stage: RescueStage::Flashing(RescueImage::VendorBoot, Slot::B), ..s },
            RescueAction::Flash(RescueImage::VendorBoot, Slot::B),
        )
    } else {
        rescue_stop_exec(s, RescueError::NothingToFlash, false)
    }
}

fn prepare_from_exec(s: RescueRun, slot: Slot) -> (r: (RescueRun, RescueAction))
    ensures
        r == prepare_from(s, slot),
{
    if slot == Slot::A {
        if s.vendor_boot_a && s.vbmeta_a {
            (RescueRun { stage: RescueStage::Preparing(Slot::A), ..s }, RescueAction::PrepareSlot(Slot::A))
        } else if s.vendor_boot_b && s.vbmeta_b {
            (RescueRun { stage: RescueStage::Preparing(Slot::B), ..s }, RescueAction::PrepareSlot(Slot::B))
        } else {
            start_flash_exec(s)
        }
    } else if s.vendor_boot_b && s.vbmeta_b {
        (RescueRun { stage: RescueStage::Preparing(Slot::B), ..s }, RescueAction::PrepareSlot(Slot::B))
    } else {
        start_flash_exec(s)
    }
}

fn after_dumps_exec(s: RescueRun) -> (r: (RescueRun, RescueAction))
    ensures
        r == after_dumps(s),
{
    if !(s.vendor_boot_a || s.vbmeta_a || s.vendor_boot_b || s.vbmeta_b) {
        rescue_stop_exec(s, RescueError::NothingDumped, false)
    } else if s.vendor_boot_a || s.vendor_boot_b {
        (RescueRun { stage: RescueStage::CheckingModel, ..s }, RescueAction::CheckModel)
    } else {
        prepare_from_exec(s, Slot::A)
    }
}

fn record_dump_exec(s: RescueRun, image: RescueImage, slot: Slot) -> (r: RescueRun)
    ensures
        r == record_dump(s, image, slot),
{
    match (image, slot) {
        (RescueImage::VendorBoot, Slot::A) => RescueRun { vendor_boot_a: true, ..s },
        (RescueImage::Vbmeta, Slot::A) => RescueRun { vbmeta_a: true, ..s },
        (RescueImage::VendorBoot, Slot::B) => RescueRun { vendor_boot_b: true, ..s },
        (RescueImage::Vbmeta, Slot::B) => RescueRun { vbmeta_b: true, ..s },
    }
}

fn next_dump_exec(s: RescueRun, image: RescueImage, slot: Slot) -> (r: (RescueRun, RescueAction))
    ensures
        r == next_dump(s, image, slot),
{
    match (image, slot) {
        (RescueImage::VendorBoot, Slot::A) => (
            RescueRun { stage: RescueStage::Dumping(RescueImage::Vbmeta, Slot::A), ..s },
            RescueAction::Dump(RescueImage::Vbmeta, Slot::A),
        ),
        (RescueImage::Vbmeta, Slot::A) => (
            RescueRun { stage: RescueStage::Dumping(RescueImage::VendorBoot, Slot::B), ..s },
            RescueAction::Dump(RescueImage::VendorBoot, Slot::B),
        ),
        (RescueImage::VendorBoot, Slot::B) => (
            RescueRun { stage: RescueStage::Dumping(RescueImage::Vbmeta, Slot::B), ..s },
            RescueAction::Dump(RescueImage::Vbmeta, Slot::B),
        ),
        (RescueImage::Vbmeta, Slot::B) => after_dumps_exec(s),
    }
}

fn next_write_exec(s: RescueRun, image: RescueImage, slot: Slot) -> (r: (RescueRun, RescueAction))
    ensures
        r == next_write(s, image, slot),
{
    if image == RescueImage::VendorBoot {
        (
            RescueRun { stage: RescueStage::Flashing(RescueImage::Vbmeta, slot), ..s },
            RescueAction::Flash(RescueImage::Vbmeta, slot),
        )
    } else if slot == Slot::A && s.prepared_b {
        (
            RescueRun { stage: RescueStage::Flashing(RescueImage::VendorBoot, Slot::B), ..s },
            RescueAction::Flash(RescueImage::VendorBoot, Slot::B),
        )
    } else {
        (RescueRun { stage: RescueStage::Finished, ..s }, RescueAction::FinishWithReset)
    }
}

/// One step of a Boot Recovery ([`rescue_step_spec`]).
pub fn rescue_step(state: &RescueRun, event: RescueEvent) -> (r: (RescueRun, RescueAction))
    ensures
        r == rescue_step_spec(*state, event),
{
    let s = *state;

    match (s.stage, event) {
        (RescueStage::CreatingWorkDir, RescueEvent::WorkDirCreated { ok }) => if ok {
            (RescueRun { stage: RescueStage::EnteringEdl, ..s }, RescueAction::EnterEdl)
        } else {
            rescue_stop_exec(s, RescueError::WorkDirFailed, false)
        },
        (RescueStage::EnteringEdl, RescueEvent::EdlEntered { ok }) => if ok {
            (RescueRun { stage: RescueStage::OpeningSession, ..s }, RescueAction::OpenSession)
        } else {
            rescue_stop_exec(s, RescueError::EdlTransitionFailed, false)
        },
        (RescueStage::OpeningSession, RescueEvent::SessionOpened { ok }) => if ok {
            (
                RescueRun { stage: RescueStage::Dumping(RescueImage::VendorBoot, Slot::A), ..s },
                RescueAction::Dump(RescueImage::VendorBoot, Slot::A),
            )
        } else {
            rescue_stop_exec(s, RescueError::SessionOpenFailed, false)
        },
        (RescueStage::Dumping(image, slot), RescueEvent::Dumped { ok }) => if ok {
            next_dump_exec(record_dump_exec(s, image, slot), image, slot)
        } else {
            next_dump_exec(s, image, slot)
        },
        (RescueStage::CheckingModel, RescueEvent::ModelChecked { mismatch }) => if mismatch {
            rescue_stop_exec(s, RescueError::ModelMismatch, true)
        } else {
            prepare_from_exec(s, Slot::A)
        },
        (RescueStage::Preparing(slot), RescueEvent::SlotPrepared { ok }) => {
            let t = if !ok {
                s
            } else if slot == Slot::A {
                RescueRun { prepared_a: true, ..s }
            } else {
                RescueRun { prepared_b: true, ..s }
            };
            if slot == Slot::A {
                prepare_from_exec(t, Slot::B)
            } else {
                start_flash_exec(t)
            }
        },
        (RescueStage::Flashing(image, slot), RescueEvent::Written { ok }) => if ok {
            next_write_exec(s, image, slot)
        } else {
            rescue_stop_exec(s, RescueError::FlashFailed(image, slot), false)
        },
        _ => (s, RescueAction::Unexpected),
    }
}

} // verus!
