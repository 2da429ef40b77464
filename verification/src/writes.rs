//! The write phase of the full firmware flash, as a step machine: after
//! each device write the library says what comes next, and the caller
//! performs it. Every failed write ends the run in EDL, never in a reset to
//! system, and the device bootloader backup goes back on the brick-critical
//! error paths.

use vstd::prelude::*;
use crate::flash::EfispStep;

verus! {

/// What the write phase has to do, fixed before its first write.
#[derive(Debug, Clone, Copy, PartialEq, Eq, Structural)]
pub struct WritePlan {
    /// Number of rollback-bypass overlays to flash after the rawprogram.
    pub overlays: usize,
    /// The device `abl` was backed up and must be restored onto `abl_a`.
    pub abl_backup: bool,
    /// What happens to TB323FU's `efisp`.
    pub efisp: EfispStep,
    /// A region-converted `vendor_boot` / `vbmeta` pair is written on top.
    pub region_pair: bool,
    /// The best-effort country-code rewrite runs.
    pub country: bool,
}

/// One device operation of the write phase.
#[derive(Debug, Clone, Copy, PartialEq, Eq, Structural)]
pub enum WriteStep {
    /// Flash every rawprogram / patch XML of the firmware.
    Rawprogram,
    /// Flash rollback-bypass overlay number `i`.
    Overlay(usize),
    /// Write the backed-up device `abl` onto `abl_a`.
    AblRestore,
    /// Flash or erase `efisp`, as the plan says.
    Efisp,
    /// Flash image `i` of the region pair (`vendor_boot_a`, then `vbmeta_a`).
    RegionImage(usize),
    /// Rewrite the country code: the per-partition work is best effort,
    /// but failing to set up its work and backup folders stops the run.
    Country,
    /// Mark slot A active.
    SetActiveSlotA,
    /// Reset the device to system.
    Reset,
}

/// Why the write phase stops, leaving the device in EDL.
#[derive(Debug, Clone, Copy, PartialEq, Eq, Structural)]
pub enum WriteAbort {
    FirmwareFailed,
    OverlayFailed,
    AblRestoreFailed,
    EfispArbFailed,
    EfispArbGblMissing,
    RegionFlashFailed,
    SetActiveFailed,
    /// The country-code work or backup folder could not be created.
    CountrySetupFailed,
}

/// What the caller does next.
#[derive(Debug, Clone, Copy, PartialEq, Eq, Structural)]
pub enum WriteNext {
    Do(WriteStep),
    /// Restore the `abl` backup (best effort), then stop with the error.
    RestoreAblThenAbort(WriteAbort),
    Abort(WriteAbort),
    Done,
}

pub open spec fn country_stage(plan: WritePlan) -> WriteNext {
    if plan.country {
        WriteNext::Do(WriteStep::Country)
    } else {
        WriteNext::Do(WriteStep::SetActiveSlotA)
    }
}

pub open spec fn region_stage(plan: WritePlan) -> WriteNext {
    if plan.region_pair {
        WriteNext::Do(WriteStep::RegionImage(0))
    } else {
        country_stage(plan)
    }
}

pub open spec fn efisp_stage(plan: WritePlan) -> WriteNext {
    match plan.efisp {
        EfispStep::Untouched => region_stage(plan),
        EfispStep::AbortArbGblMissing => WriteNext::Abort(WriteAbort::EfispArbGblMissing),
        _ => WriteNext::Do(WriteStep::Efisp),
    }
}

pub open spec fn after_overlays_stage(plan: WritePlan) -> WriteNext {
    if plan.abl_backup {
        WriteNext::Do(WriteStep::AblRestore)
    } else {
        efisp_stage(plan)
    }
}

pub open spec fn after_rawprogram_stage(plan: WritePlan) -> WriteNext {
    if plan.overlays > 0 {
        WriteNext::Do(WriteStep::Overlay(0))
    } else {
        after_overlays_stage(plan)
    }
}

/// A failed rawprogram or overlay write restores the `abl` backup (when
/// there is one) before stopping.
pub open spec fn abort_restoring(plan: WritePlan, e: WriteAbort) -> WriteNext {
    if plan.abl_backup {
        WriteNext::RestoreAblThenAbort(e)
    } else {
        WriteNext::Abort(e)
    }
}

/// The step after `step` finished, `ok` telling whether it succeeded.
pub open spec fn after_write_spec(plan: WritePlan, step: WriteStep, ok: bool) -> WriteNext {
    match step {
        WriteStep::Rawprogram => if ok {
            after_rawprogram_stage(plan)
        } else {
            abort_restoring(plan, WriteAbort::FirmwareFailed)
        },
        WriteStep::Overlay(i) => if !ok {
            abort_restoring(plan, WriteAbort::OverlayFailed)
        } else if i + 1 < plan.overlays {
            WriteNext::Do(WriteStep::Overlay((i + 1) as usize))
        } else {
            after_overlays_stage(plan)
        },
        WriteStep::AblRestore => if ok {
            efisp_stage(plan)
        } else {
            WriteNext::Abort(WriteAbort::AblRestoreFailed)
        },
        WriteStep::Efisp => if !ok && plan.efisp == (EfispStep::Flash { fatal_on_failure: true }) {
            WriteNext::Abort(WriteAbort::EfispArbFailed)
        } else {
            region_stage(plan)
        },
        WriteStep::RegionImage(i) => if !ok {
            WriteNext::Abort(WriteAbort::RegionFlashFailed)
        } else if i == 0 {
            WriteNext::Do(WriteStep::RegionImage(1))
        } else {
            country_stage(plan)
        },
        WriteStep::Country => if ok {
            WriteNext::Do(WriteStep::SetActiveSlotA)
        } else {
            WriteNext::Abort(WriteAbort::CountrySetupFailed)
        },
        WriteStep::SetActiveSlotA => if ok {
            WriteNext::Do(WriteStep::Reset)
        } else {
            WriteNext::Abort(WriteAbort::SetActiveFailed)
        },
        WriteStep::Reset => WriteNext::Done,
    }
}

fn country_stage_exec(plan: WritePlan) -> (r: WriteNext)
    ensures
        r == country_stage(plan),
{
    if plan.country {
        WriteNext::Do(WriteStep::Country)
    } else {
        WriteNext::Do(WriteStep::SetActiveSlotA)
    }
}

fn region_stage_exec(plan: WritePlan) -> (r: WriteNext)
    ensures
        r == region_stage(plan),
{
    if plan.region_pair {
        WriteNext::Do(WriteStep::RegionImage(0))
    } else {
        country_stage_exec(plan)
    }
}

fn efisp_stage_exec(plan: WritePlan) -> (r: WriteNext)
    ensures
        r == efisp_stage(plan),
{
    match plan.efisp {
        EfispStep::Untouched => region_stage_exec(plan),
        EfispStep::AbortArbGblMissing => WriteNext::Abort(WriteAbort::EfispArbGblMissing),
        _ => WriteNext::Do(WriteStep::Efisp),
    }
}

fn after_overlays_exec(plan: WritePlan) -> (r: WriteNext)
    ensures
        r == after_overlays_stage(plan),
{
    if plan.abl_backup {
        WriteNext::Do(WriteStep::AblRestore)
    } else {
        efisp_stage_exec(plan)
    }
}

fn abort_restoring_exec(plan: WritePlan, e: WriteAbort) -> (r: WriteNext)
    ensures
        r == abort_restoring(plan, e),
{
    if plan.abl_backup {
        WriteNext::RestoreAblThenAbort(e)
    } else {
        WriteNext::Abort(e)
    }
}

/// The first operation of the write phase.
pub fn first_write_step() -> (r: WriteNext)
    ensures
        r == WriteNext::Do(WriteStep::Rawprogram),
{
    WriteNext::Do(WriteStep::Rawprogram)
}

/// What to do after `step` finished (`ok` = it succeeded).
#[verifier::allow_in_spec]
pub fn after_write_step(plan: WritePlan, step: WriteStep, ok: bool) -> WriteNext
    returns
        after_write_spec(plan, step, ok),
{
    match step {
        WriteStep::Rawprogram => {
            if !ok {
                abort_restoring_exec(plan, WriteAbort::FirmwareFailed)
            } else if plan.overlays > 0 {
                WriteNext::Do(WriteStep::Overlay(0))
            } else {
                after_overlays_exec(plan)
            }
        },
        WriteStep::Overlay(i) => {
            if !ok {
                abort_restoring_exec(plan, WriteAbort::OverlayFailed)
            } else if i < plan.overlays && i + 1 < plan.overlays {
                WriteNext::Do(WriteStep::Overlay(i + 1))
            } else {
                after_overlays_exec(plan)
            }
        },
        WriteStep::AblRestore => {
            if ok {
                efisp_stage_exec(plan)
            } else {
                WriteNext::Abort(WriteAbort::AblRestoreFailed)
            }
        },
        WriteStep::Efisp => {
            let fatal = match plan.efisp {
                EfispStep::Flash { fatal_on_failure } => fatal_on_failure,
                _ => false,
            };
            if !ok && fatal {
                WriteNext::Abort(WriteAbort::EfispArbFailed)
            } else {
                region_stage_exec(plan)
            }
        },
        WriteStep::RegionImage(i) => {
            if !ok {
                WriteNext::Abort(WriteAbort::RegionFlashFailed)
            } else if i == 0 {
                WriteNext::Do(WriteStep::RegionImage(1))
            } else {
                country_stage_exec(plan)
            }
        },
        WriteStep::Country => {
            if ok {
                WriteNext::Do(WriteStep::SetActiveSlotA)
            } else {
                WriteNext::Abort(WriteAbort::CountrySetupFailed)
            }
        },
        WriteStep::SetActiveSlotA => {
            if ok {
                WriteNext::Do(WriteStep::Reset)
            } else {
                WriteNext::Abort(WriteAbort::SetActiveFailed)
            }
        },
        WriteStep::Reset => WriteNext::Done,
    }
}

/// Position of a step in the phase's fixed order.
pub open spec fn step_rank(plan: WritePlan, step: WriteStep) -> int {
    match step {
        WriteStep::Rawprogram => 0,
        WriteStep::Overlay(i) => 1 + i,
        WriteStep::AblRestore => plan.overlays + 1,
        WriteStep::Efisp => plan.overlays + 2,
        WriteStep::RegionImage(i) => plan.overlays + 3 + i,
        WriteStep::Country => plan.overlays + 5,
        WriteStep::SetActiveSlotA => plan.overlays + 6,
        WriteStep::Reset => plan.overlays + 7,
    }
}

/// The steps a plan can hold.
pub open spec fn step_in_plan(plan: WritePlan, step: WriteStep) -> bool {
    match step {
        WriteStep::Overlay(i) => i < plan.overlays,
        WriteStep::RegionImage(i) => i < 2,
        _ => true,
    }
}

/// Law: the write phase only moves forward, through steps of its plan, so
/// it ends after a bounded number of writes.
pub proof fn lemma_writes_move_forward(plan: WritePlan, step: WriteStep, ok: bool)
    requires
        step_in_plan(plan, step),
    ensures
        after_write_spec(plan, step, ok) matches WriteNext::Do(next) ==> step_in_plan(plan, next)
            && step_rank(plan, next) > step_rank(plan, step),
{
}

/// Law: the device is reset to system only once slot A was marked active,
/// which comes after every write; a failed step stops the run (only a
/// non-fatal `efisp` write carries on), and never towards the reset.
pub proof fn lemma_reset_only_after_success(plan: WritePlan, step: WriteStep, ok: bool)
    ensures
        after_write_spec(plan, step, ok) == WriteNext::Do(WriteStep::Reset) ==> step
            == WriteStep::SetActiveSlotA && ok,
        !ok ==> (after_write_spec(plan, step, ok) is Abort || after_write_spec(plan, step, ok)
            is RestoreAblThenAbort || step == WriteStep::Reset || (step
            == WriteStep::Efisp && plan.efisp != (EfispStep::Flash { fatal_on_failure: true }))),
{
}

/// Law: with an `abl` backup, a failed rawprogram or overlay write always
/// puts the device bootloader back before stopping.
pub proof fn lemma_abl_restored_on_failure(plan: WritePlan, step: WriteStep)
    requires
        plan.abl_backup,
        step == WriteStep::Rawprogram || step is Overlay,
    ensures
        after_write_spec(plan, step, false) is RestoreAblThenAbort,
{
}

/// Law: when a re-signed chain depends on the `_arb` GBL, failing to flash
/// it stops the run in EDL.
pub proof fn lemma_arb_gbl_failure_stops(plan: WritePlan)
    requires
        plan.efisp == (EfispStep::Flash { fatal_on_failure: true }),
    ensures
        after_write_spec(plan, WriteStep::Efisp, false) == WriteNext::Abort(
            WriteAbort::EfispArbFailed,
        ),
{
}

/// The first `n` steps of the write phase when every write succeeds, and
/// what comes after them.
pub open spec fn ok_write_run(plan: WritePlan, n: nat) -> (WriteNext, Seq<WriteStep>)
    decreases n,
{
    if n == 0 {
        (WriteNext::Do(WriteStep::Rawprogram), Seq::empty())
    } else {
        let (next, steps) = ok_write_run(plan, (n - 1) as nat);
        match next {
            WriteNext::Do(step) => (after_write_spec(plan, step, true), steps.push(step)),
            _ => (next, steps),
        }
    }
}

/// `vendor_boot_a`, then `vbmeta_a` of the region pair were written before
/// position `k` of `steps`.
pub open spec fn region_pair_before(steps: Seq<WriteStep>, k: int) -> bool {
    exists|i: int, j: int|
        #![trigger steps[i], steps[j]]
        0 <= i < j < k && steps[i] == WriteStep::RegionImage(0) && steps[j] == WriteStep::RegionImage(
            1,
        )
}

/// The steps that may only follow the region pair.
pub open spec fn after_region(step: WriteStep) -> bool {
    step == WriteStep::Country || step == WriteStep::SetActiveSlotA || step == WriteStep::Reset
}

/// What holds along a successful run of a plan with a region pair.
pub open spec fn region_run_inv(plan: WritePlan, next: WriteNext, steps: Seq<WriteStep>) -> bool {
    &&& next matches WriteNext::Do(s) ==> step_in_plan(plan, s)
    &&& next == WriteNext::Do(WriteStep::RegionImage(1)) ==> exists|i: int|
        0 <= i < steps.len() && #[trigger] steps[i] == WriteStep::RegionImage(0)
    &&& (next == WriteNext::Done || (next matches WriteNext::Do(s) && after_region(s)))
        ==> region_pair_before(steps, steps.len() as int)
    &&& forall|k: int|
        0 <= k < steps.len() && after_region(#[trigger] steps[k]) ==> region_pair_before(steps, k)
}

/// Law: with a region pair, `vbmeta_a` of the pair only follows
/// `vendor_boot_a`, and the country rewrite, the slot switch, the reset and
/// the end only follow `vbmeta_a` of the pair or one another.
pub proof fn lemma_region_successors(plan: WritePlan, step: WriteStep)
    requires
        plan.region_pair,
        step_in_plan(plan, step),
    ensures
        after_write_spec(plan, step, true) == WriteNext::Do(WriteStep::RegionImage(1)) ==> step
            == WriteStep::RegionImage(0),
        (after_write_spec(plan, step, true) == WriteNext::Done || (after_write_spec(
            plan,
            step,
            true,
        ) matches WriteNext::Do(s) && after_region(s))) ==> (step == WriteStep::RegionImage(1)
            || after_region(step)),
{
}

#[verifier::spinoff_prover]
proof fn lemma_region_run_inv(plan: WritePlan, n: nat)
    requires
        plan.region_pair,
    ensures
        region_run_inv(plan, ok_write_run(plan, n).0, ok_write_run(plan, n).1),
    decreases n,
{
    if n > 0 {
        lemma_region_run_inv(plan, (n - 1) as nat);
        let (next, steps) = ok_write_run(plan, (n - 1) as nat);
        if let WriteNext::Do(step) = next {
            let t = steps.push(step);
            let len = steps.len() as int;
            assert(t[len] == step);
            // Witnesses found in `steps` stay witnesses in `t`.
            assert forall|k: int| 0 <= k <= len && region_pair_before(steps, k) implies region_pair_before(
                t,
                k,
            ) by {
                let (i, j) = choose|i: int, j: int|
                    #![trigger steps[i], steps[j]]
                    0 <= i < j < k && steps[i] == WriteStep::RegionImage(0) && steps[j]
                        == WriteStep::RegionImage(1);
                assert(t[i] == steps[i] && t[j] == steps[j]);
            }
            assert forall|k: int| 0 <= k < t.len() && after_region(#[trigger] t[k]) implies region_pair_before(
                t,
                k,
            ) by {
                if k < len {
                    assert(steps[k] == t[k]);
                }
            }
            let nn = after_write_spec(plan, step, true);
            lemma_region_successors(plan, step);
            lemma_writes_move_forward(plan, step, true);
            if nn == WriteNext::Done || (nn matches WriteNext::Do(s) && after_region(s)) {
                if step == WriteStep::RegionImage(1) {
                    let i = choose|i: int| 0 <= i < steps.len() && #[trigger] steps[i] == WriteStep::RegionImage(0);
                    assert(t[i] == WriteStep::RegionImage(0));
                    assert(region_pair_before(t, t.len() as int));
                } else {
                    assert(after_region(step));
                    assert(region_pair_before(steps, len));
                    assert(region_pair_before(t, len));
                    let (i, j) = choose|i: int, j: int|
                        #![trigger t[i], t[j]]
                        0 <= i < j < len && t[i] == WriteStep::RegionImage(0) && t[j]
                            == WriteStep::RegionImage(1);
                    assert(region_pair_before(t, t.len() as int));
                }
            }
        }
    }
}

/// Law: a region-converted pair is always written when the phase gets that
/// far. For a plan with a region pair, whatever becomes of `efisp`, every
/// successful run writes `vendor_boot_a` and then `vbmeta_a` of the pair
/// (`RegionImage(0)`, then `RegionImage(1)`) before any country rewrite,
/// before slot A is marked active and before the reset.
pub proof fn lemma_region_pair_written_first(plan: WritePlan, n: nat, k: int)
    requires
        plan.region_pair,
        0 <= k < ok_write_run(plan, n).1.len(),
        after_region(ok_write_run(plan, n).1[k]),
    ensures
        exists|i: int, j: int|
            #![trigger ok_write_run(plan, n).1[i], ok_write_run(plan, n).1[j]]
            0 <= i < j < k && ok_write_run(plan, n).1[i] == WriteStep::RegionImage(0)
                && ok_write_run(plan, n).1[j] == WriteStep::RegionImage(1),
{
    lemma_region_run_inv(plan, n);
}

proof fn lemma_ok_run_overlays(plan: WritePlan, k: nat)
    requires
        k <= plan.overlays,
    ensures
        ok_write_run(plan, k + 1).0 == (if k < plan.overlays {
            WriteNext::Do(WriteStep::Overlay(k as usize))
        } else {
            after_overlays_stage(plan)
        }),
    decreases k,
{
    if k > 0 {
        lemma_ok_run_overlays(plan, (k - 1) as nat);
        assert(ok_write_run(plan, k + 1) == {
            let (next, steps) = ok_write_run(plan, k);
            match next {
                WriteNext::Do(step) => (after_write_spec(plan, step, true), steps.push(step)),
                _ => (next, steps),
            }
        });
    }
}

/// Law: a plan with a region pair gets its pair written: unless the run
/// stops for a missing `_arb` GBL, the successful run writes
/// `RegionImage(0)` and `RegionImage(1)` within its first `overlays + 5`
/// steps (rawprogram, the overlays, the `abl` restore and `efisp` at most).
pub proof fn lemma_region_pair_reached(plan: WritePlan)
    requires
        plan.region_pair,
        plan.efisp != EfispStep::AbortArbGblMissing,
    ensures
        exists|n: nat|
            n <= plan.overlays + 5 && (#[trigger] ok_write_run(plan, n)).1.contains(
                WriteStep::RegionImage(0),
            ) && ok_write_run(plan, n).1.contains(WriteStep::RegionImage(1)),
{
    let m0 = (plan.overlays + 1) as nat;
    lemma_ok_run_overlays(plan, plan.overlays as nat);
    let m1 = if plan.abl_backup { m0 + 1 } else { m0 };
    let m = if plan.efisp == EfispStep::Untouched { m1 } else { m1 + 1 };
    if plan.abl_backup {
        assert(ok_write_run(plan, m0).0 == WriteNext::Do(WriteStep::AblRestore));
        assert(ok_write_run(plan, m0 + 1).0 == efisp_stage(plan));
    }
    assert(ok_write_run(plan, m1).0 == efisp_stage(plan));
    if plan.efisp != EfispStep::Untouched {
        assert(ok_write_run(plan, m1).0 == WriteNext::Do(WriteStep::Efisp));
        assert(ok_write_run(plan, m1 + 1).0 == region_stage(plan));
    }
    assert(ok_write_run(plan, m).0 == WriteNext::Do(WriteStep::RegionImage(0)));
    assert(ok_write_run(plan, m + 1).0 == WriteNext::Do(WriteStep::RegionImage(1)));
    let steps = ok_write_run(plan, m + 2).1;
    let before = ok_write_run(plan, m).1;
    assert(steps == before.push(WriteStep::RegionImage(0)).push(WriteStep::RegionImage(1)));
    assert(steps[before.len() as int] == WriteStep::RegionImage(0));
    assert(steps[before.len() + 1int] == WriteStep::RegionImage(1));
    assert(ok_write_run(plan, m + 2).1.contains(WriteStep::RegionImage(0)));
    assert(ok_write_run(plan, m + 2).1.contains(WriteStep::RegionImage(1)));
}

} // verus!
