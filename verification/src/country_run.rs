//! The country-code rewrite over an open EDL session, as a step machine
//! over the model's country partitions: each is dumped, backed up, looked
//! at, patched and flashed back, best effort; a failure on one partition
//! is recorded and the run moves on to the next.

use vstd::prelude::*;
use crate::country::{DetectedCodePlan, SettleStep};

verus! {

/// Why one partition was recorded as failed.
#[derive(Debug, Clone, Copy, PartialEq, Eq, Structural)]
pub enum CountryFailure {
    NoLun,
    DumpFailed,
    BackupFailed,
    DetectFailed,
    PatchFailed,
    NoKnownCode,
    NoReplacements,
    FlashFailed,
}

/// Where the rewrite of partition `i` stands.
#[derive(Debug, Clone, Copy, PartialEq, Eq, Structural)]
pub enum CountryStage {
    ResolvingLun(usize),
    Dumping(usize),
    BackingUp(usize),
    Detecting(usize),
    /// The detection failed (recorded); then go on with this plan.
    AfterDetectFailure(usize, DetectedCodePlan),
    Patching(usize),
    Settling(usize),
    Flashing(usize),
    /// The partition's outcome is being recorded.
    Recording(usize),
    Finished,
}

/// The state of a country-code rewrite over `count` partitions.
#[derive(Debug, Clone, Copy, PartialEq, Eq, Structural)]
pub struct CountryRun {
    pub stage: CountryStage,
    pub count: usize,
    /// The current partition's dump was copied into the backup folder.
    pub backed_up: bool,
    /// The current partition was already sent to the device once.
    pub flash_attempted: bool,
}

/// What the caller reports back.
#[derive(Debug, Clone, Copy, PartialEq, Eq, Structural)]
pub enum CountryEvent {
    LunResolved { found: bool },
    Dumped { ok: bool },
    BackedUp { ok: bool },
    /// The code was looked for; the plan is [`crate::country::plan_for_detected_code`]'s.
    Detected(DetectedCodePlan),
    /// Looking for the code failed; the plan is the one for no code found.
    DetectFailed(DetectedCodePlan),
    /// The failure of the detection was recorded.
    Recorded,
    Patched { ok: bool },
    /// [`crate::country::settle_country_partition`]'s verdict.
    Settled(SettleStep),
    Flashed { ok: bool },
}

/// What the caller does next.
#[derive(Debug, Clone, Copy, PartialEq, Eq, Structural)]
pub enum CountryAction {
    ResolveLun(usize),
    Dump(usize),
    BackUp(usize),
    Detect(usize),
    Patch(usize),
    Settle(usize),
    Flash(usize),
    MarkFailed(usize, CountryFailure),
    MarkFlashed(usize),
    /// Every partition was handled: finish the progress record.
    Finish,
    Unexpected,
}

/// The state a rewrite over `count` partitions starts in, and its first
/// action.
pub open spec fn country_start_spec(count: usize) -> (CountryRun, CountryAction) {
    if count == 0 {
        (
            CountryRun { stage: CountryStage::Finished, count, backed_up: false, flash_attempted: false },
            CountryAction::Finish,
        )
    } else {
        (
            CountryRun {
                stage: CountryStage::ResolvingLun(0),
                count,
                backed_up: false,
                flash_attempted: false,
            },
            CountryAction::ResolveLun(0),
        )
    }
}

/// Record a failure of partition `i`, then move on.
pub open spec fn fail_label(s: CountryRun, i: usize, why: CountryFailure) -> (CountryRun, CountryAction) {
    (CountryRun { stage: CountryStage::Recording(i), ..s }, CountryAction::MarkFailed(i, why))
}

/// Go on from the plan for the detected code.
pub open spec fn follow_plan(s: CountryRun, i: usize, plan: DetectedCodePlan) -> (CountryRun, CountryAction) {
    match plan {
        DetectedCodePlan::PatchFound => (
            CountryRun { stage: CountryStage::Patching(i), ..s },
            CountryAction::Patch(i),
        ),
        DetectedCodePlan::GiveUp => fail_label(s, i, CountryFailure::NoKnownCode),
        DetectedCodePlan::PassThrough => (
            CountryRun { stage: CountryStage::Settling(i), ..s },
            CountryAction::Settle(i),
        ),
    }
}

/// One step of the rewrite.
pub open spec fn country_step_spec(s: CountryRun, event: CountryEvent) -> (CountryRun, CountryAction) {
    match (s.stage, event) {
        (CountryStage::ResolvingLun(i), CountryEvent::LunResolved { found }) => if found {
            (CountryRun { stage: CountryStage::Dumping(i), ..s }, CountryAction::Dump(i))
        } else {
            fail_label(s, i, CountryFailure::NoLun)
        },
        (CountryStage::Dumping(i), CountryEvent::Dumped { ok }) => if ok {
            (CountryRun { stage: CountryStage::BackingUp(i), ..s }, CountryAction::BackUp(i))
        } else {
            fail_label(s, i, CountryFailure::DumpFailed)
        },
        (CountryStage::BackingUp(i), CountryEvent::BackedUp { ok }) => if ok {
            (
                CountryRun { stage: CountryStage::Detecting(i), backed_up: true, ..s },
                CountryAction::Detect(i),
            )
        } else {
            fail_label(s, i, CountryFailure::BackupFailed)
        },
        (CountryStage::Detecting(i), CountryEvent::Detected(plan)) => follow_plan(s, i, plan),
        (CountryStage::Detecting(i), CountryEvent::DetectFailed(plan)) => (
            CountryRun { stage: CountryStage::AfterDetectFailure(i, plan), ..s },
            CountryAction::MarkFailed(i, CountryFailure::DetectFailed),
        ),
        (CountryStage::AfterDetectFailure(i, plan), CountryEvent::Recorded) => follow_plan(s, i, plan),
        (CountryStage::Patching(i), CountryEvent::Patched { ok }) => if ok {
            (CountryRun { stage: CountryStage::Settling(i), ..s }, CountryAction::Settle(i))
        } else {
            fail_label(s, i, CountryFailure::PatchFailed)
        },
        (CountryStage::Settling(i), CountryEvent::Settled(step)) => match step {
            SettleStep::FlashPatched => (
                CountryRun { stage: CountryStage::Flashing(i), flash_attempted: true, ..s },
                CountryAction::Flash(i),
            ),
            SettleStep::NoReplacements => fail_label(s, i, CountryFailure::NoReplacements),
            _ => (CountryRun { stage: CountryStage::Recording(i), ..s }, CountryAction::MarkFlashed(i)),
        },
        (CountryStage::Flashing(i), CountryEvent::Flashed { ok }) => if ok {
            (CountryRun { stage: CountryStage::Recording(i), ..s }, CountryAction::MarkFlashed(i))
        } else {
            fail_label(s, i, CountryFailure::FlashFailed)
        },
        (CountryStage::Recording(i), CountryEvent::Recorded) => if i < s.count && s.count - i > 1 {
            (
                CountryRun {
                    stage: CountryStage::ResolvingLun((i + 1) as usize),
                    backed_up: false,
                    flash_attempted: false,
                    ..s
                },
                CountryAction::ResolveLun((i + 1) as usize),
            )
        } else {
            (CountryRun { stage: CountryStage::Finished, ..s }, CountryAction::Finish)
        },
        _ => (s, CountryAction::Unexpected),
    }
}

/// The partition a stage is about.
pub open spec fn stage_label(stage: CountryStage) -> Option<usize> {
    match stage {
        CountryStage::ResolvingLun(i) => Some(i),
        CountryStage::Dumping(i) => Some(i),
        CountryStage::BackingUp(i) => Some(i),
        CountryStage::Detecting(i) => Some(i),
        CountryStage::AfterDetectFailure(i, _) => Some(i),
        CountryStage::Patching(i) => Some(i),
        CountryStage::Settling(i) => Some(i),
        CountryStage::Flashing(i) => Some(i),
        CountryStage::Recording(i) => Some(i),
        CountryStage::Finished => None,
    }
}

/// What every state of the rewrite satisfies.
pub open spec fn country_inv(s: CountryRun) -> bool {
    &&& stage_label(s.stage) matches Some(i) ==> i < s.count
    &&& (s.stage is ResolvingLun || s.stage is Dumping || s.stage is BackingUp) ==> !s.backed_up
        && !s.flash_attempted
    &&& (s.stage is Detecting || s.stage is AfterDetectFailure || s.stage is Patching
        || s.stage is Settling || s.stage is Flashing) ==> s.backed_up
    &&& s.stage is Flashing ==> s.flash_attempted
    &&& (s.stage is Detecting || s.stage is AfterDetectFailure || s.stage is Patching
        || s.stage is Settling) ==> !s.flash_attempted
}

/// Law: a rewrite starts in a state of the invariant.
pub proof fn lemma_country_start_inv(count: usize)
    ensures
        country_inv(country_start_spec(count).0),
{
}

/// Law: every step keeps the invariant. A partition is flashed only after
/// its dump was backed up, and at most once; every failure is recorded and
/// the run then goes on to the next partition, so every partition is
/// attempted; the run finishes only after the last one.
pub proof fn lemma_country_step(s: CountryRun, e: CountryEvent)
    requires
        country_inv(s),
    ensures
        country_inv(country_step_spec(s, e).0),
        country_step_spec(s, e).1 is Flash ==> s.backed_up && !s.flash_attempted,
        (s.stage is Recording && e == CountryEvent::Recorded) ==> (if stage_label(s.stage)->0 + 1
            < s.count {
            country_step_spec(s, e).1 == CountryAction::ResolveLun(
                (stage_label(s.stage)->0 + 1) as usize,
            )
        } else {
            country_step_spec(s, e).1 == CountryAction::Finish
        }),
        country_step_spec(s, e).1 is Finish ==> (s.stage is Recording && stage_label(s.stage)->0
            + 1 == s.count),
        country_step_spec(s, e).1 matches CountryAction::MarkFailed(i, _) ==> stage_label(
            s.stage,
        ) == Some(i),
{
}

/// Law: a partition's settling verdict decides how it is recorded. A
/// partition that already carries the target code, or a `persist` with
/// nothing to change, is recorded as flashed (confirmed) — never as
/// failed; a changed partition is flashed first; only "no replacements"
/// records a failure.
pub proof fn lemma_settle_records(s: CountryRun, i: usize, st: SettleStep)
    requires
        s.stage == CountryStage::Settling(i),
    ensures
        (st == SettleStep::AlreadyTarget || st == SettleStep::PassThrough) ==> country_step_spec(
            s,
            CountryEvent::Settled(st),
        ).1 == CountryAction::MarkFlashed(i),
        st == SettleStep::FlashPatched ==> country_step_spec(s, CountryEvent::Settled(st)).1
            == CountryAction::Flash(i),
        country_step_spec(s, CountryEvent::Settled(st)).1 is MarkFailed <==> st
            == SettleStep::NoReplacements,
        country_step_spec(s, CountryEvent::Settled(st)).1 matches CountryAction::MarkFailed(j, why)
            ==> j == i && why == CountryFailure::NoReplacements,
{
}

/// Law: a partition whose flash succeeded is recorded as flashed; one whose
/// flash failed is recorded as a flash failure.
pub proof fn lemma_success_recorded_flashed(s: CountryRun, i: usize)
    requires
        s.stage == CountryStage::Flashing(i),
    ensures
        country_step_spec(s, CountryEvent::Flashed { ok: true }).1 == CountryAction::MarkFlashed(i),
        country_step_spec(s, CountryEvent::Flashed { ok: false }).1 == CountryAction::MarkFailed(
            i,
            CountryFailure::FlashFailed,
        ),
{
}

/// Start a rewrite over `count` partitions.
pub fn country_start(count: usize) -> (r: (CountryRun, CountryAction))
    ensures
        r == country_start_spec(count),
{
    if count == 0 {
        (
            CountryRun { stage: CountryStage::Finished, count, backed_up: false, flash_attempted: false },
            CountryAction::Finish,
        )
    } else {
        (
            CountryRun {
                stage: CountryStage::ResolvingLun(0),
                count,
                backed_up: false,
                flash_attempted: false,
            },
            CountryAction::ResolveLun(0),
        )
    }
}

fn fail_label_exec(s: CountryRun, i: usize, why: CountryFailure) -> (r: (CountryRun, CountryAction))
    ensures
        r == fail_label(s, i, why),
{
    (CountryRun { stage: CountryStage::Recording(i), ..s }, CountryAction::MarkFailed(i, why))
}

fn follow_plan_exec(s: CountryRun, i: usize, plan: DetectedCodePlan) -> (r: (CountryRun, CountryAction))
    ensures
        r == follow_plan(s, i, plan),
{
    match plan {
        DetectedCodePlan::PatchFound => (
            CountryRun { stage: CountryStage::Patching(i), ..s },
            CountryAction::Patch(i),
        ),
        DetectedCodePlan::GiveUp => fail_label_exec(s, i, CountryFailure::NoKnownCode),
        DetectedCodePlan::PassThrough => (
            CountryRun { stage: CountryStage::Settling(i), ..s },
            CountryAction::Settle(i),
        ),
    }
}

/// One step of the rewrite ([`country_step_spec`]).
pub fn country_step(state: &CountryRun, event: CountryEvent) -> (r: (CountryRun, CountryAction))
    ensures
        r == country_step_spec(*state, event),
{
    let s = *state;

    match (s.stage, event) {
        (CountryStage::ResolvingLun(i), CountryEvent::LunResolved { found }) => if found {
            (CountryRun { stage: CountryStage::Dumping(i), ..s }, CountryAction::Dump(i))
        } else {
            fail_label_exec(s, i, CountryFailure::NoLun)
        },
        (CountryStage::Dumping(i), CountryEvent::Dumped { ok }) => if ok {
            (CountryRun { stage: CountryStage::BackingUp(i), ..s }, CountryAction::BackUp(i))
        } else {
            fail_label_exec(s, i, CountryFailure::DumpFailed)
        },
        (CountryStage::BackingUp(i), CountryEvent::BackedUp { ok }) => if ok {
            (
                CountryRun { stage: CountryStage::Detecting(i), backed_up: true, ..s },
                CountryAction::Detect(i),
            )
        } else {
            fail_label_exec(s, i, CountryFailure::BackupFailed)
        },
        (CountryStage::Detecting(i), CountryEvent::Detected(plan)) => follow_plan_exec(s, i, plan),
        (CountryStage::Detecting(i), CountryEvent::DetectFailed(plan)) => (
            CountryRun { stage: CountryStage::AfterDetectFailure(i, plan), ..s },
            CountryAction::MarkFailed(i, CountryFailure::DetectFailed),
        ),
        (CountryStage::AfterDetectFailure(i, plan), CountryEvent::Recorded) => follow_plan_exec(s, i, plan),
        (CountryStage::Patching(i), CountryEvent::Patched { ok }) => if ok {
            (CountryRun { stage: CountryStage::Settling(i), ..s }, CountryAction::Settle(i))
        } else {
            fail_label_exec(s, i, CountryFailure::PatchFailed)
        },
        (CountryStage::Settling(i), CountryEvent::Settled(step)) => match step {
            SettleStep::FlashPatched => (
                CountryRun { stage: CountryStage::Flashing(i), flash_attempted: true, ..s },
                CountryAction::Flash(i),
            ),
            SettleStep::NoReplacements => fail_label_exec(s, i, CountryFailure::NoReplacements),
            _ => (CountryRun { stage: CountryStage::Recording(i), ..s }, CountryAction::MarkFlashed(i)),
        },
        (CountryStage::Flashing(i), CountryEvent::Flashed { ok }) => if ok {
            (CountryRun { stage: CountryStage::Recording(i), ..s }, CountryAction::MarkFlashed(i))
        } else {
            fail_label_exec(s, i, CountryFailure::FlashFailed)
        },
        (CountryStage::Recording(i), CountryEvent::Recorded) => if i < s.count && s.count - i > 1 {
            (
                CountryRun {
                    stage: CountryStage::ResolvingLun((i + 1) as usize),
                    backed_up: false,
                    flash_attempted: false,
                    ..s
                },
                CountryAction::ResolveLun((i + 1) as usize),
            )
        } else {
            (CountryRun { stage: CountryStage::Finished, ..s }, CountryAction::Finish)
        },
        _ => (s, CountryAction::Unexpected),
    }
}

} // verus!
