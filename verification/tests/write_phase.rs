use ltbox_gui::flash::EfispStep;
use ltbox_gui::writes::{
    after_write_step, first_write_step, WriteAbort, WriteNext, WritePlan, WriteStep,
};

fn run(plan: WritePlan, fail_at: Option<WriteStep>) -> (Vec<WriteStep>, WriteNext) {
    let mut done = Vec::new();
    let mut next = first_write_step();
    loop {
        match next {
            WriteNext::Do(step) => {
                done.push(step);
                let ok = Some(step) != fail_at;
                next = after_write_step(plan, step, ok);
            }
            other => return (done, other),
        }
    }
}

fn plan() -> WritePlan {
    WritePlan {
        overlays: 2,
        abl_backup: true,
        efisp: EfispStep::Flash { fatal_on_failure: true },
        region_pair: true,
        country: true,
    }
}

#[test]
fn full_plan_runs_every_step_in_order() {
    let (steps, end) = run(plan(), None);
    assert_eq!(
        steps,
        vec![
            WriteStep::Rawprogram,
            WriteStep::Overlay(0),
            WriteStep::Overlay(1),
            WriteStep::AblRestore,
            WriteStep::Efisp,
            WriteStep::RegionImage(0),
            WriteStep::RegionImage(1),
            WriteStep::Country,
            WriteStep::SetActiveSlotA,
            WriteStep::Reset,
        ]
    );
    assert_eq!(end, WriteNext::Done);
}

#[test]
fn minimal_plan() {
    let p = WritePlan {
        overlays: 0,
        abl_backup: false,
        efisp: EfispStep::Untouched,
        region_pair: false,
        country: false,
    };
    let (steps, end) = run(p, None);
    assert_eq!(
        steps,
        vec![WriteStep::Rawprogram, WriteStep::SetActiveSlotA, WriteStep::Reset]
    );
    assert_eq!(end, WriteNext::Done);
}

#[test]
fn failed_writes_never_reset() {
    assert_eq!(
        run(plan(), Some(WriteStep::Rawprogram)).1,
        WriteNext::RestoreAblThenAbort(WriteAbort::FirmwareFailed)
    );
    assert_eq!(
        run(plan(), Some(WriteStep::Overlay(1))).1,
        WriteNext::RestoreAblThenAbort(WriteAbort::OverlayFailed)
    );
    assert_eq!(
        run(plan(), Some(WriteStep::AblRestore)).1,
        WriteNext::Abort(WriteAbort::AblRestoreFailed)
    );
    assert_eq!(
        run(plan(), Some(WriteStep::Efisp)).1,
        WriteNext::Abort(WriteAbort::EfispArbFailed)
    );
    assert_eq!(
        run(plan(), Some(WriteStep::RegionImage(0))).1,
        WriteNext::Abort(WriteAbort::RegionFlashFailed)
    );
    assert_eq!(
        run(plan(), Some(WriteStep::SetActiveSlotA)).1,
        WriteNext::Abort(WriteAbort::SetActiveFailed)
    );
    // The country rewrite could not set up its folders: stop in EDL.
    assert_eq!(
        run(plan(), Some(WriteStep::Country)).1,
        WriteNext::Abort(WriteAbort::CountrySetupFailed)
    );
    let mut no_backup = plan();
    no_backup.abl_backup = false;
    assert_eq!(
        run(no_backup, Some(WriteStep::Rawprogram)).1,
        WriteNext::Abort(WriteAbort::FirmwareFailed)
    );
}

#[test]
fn efisp_variants() {
    let mut p = plan();
    p.efisp = EfispStep::Flash { fatal_on_failure: false };
    assert_eq!(run(p, Some(WriteStep::Efisp)).1, WriteNext::Done);
    p.efisp = EfispStep::AbortArbGblMissing;
    let (steps, end) = run(p, None);
    assert_eq!(end, WriteNext::Abort(WriteAbort::EfispArbGblMissing));
    assert_eq!(steps.last(), Some(&WriteStep::AblRestore));
    p.efisp = EfispStep::Erase;
    assert_eq!(run(p, Some(WriteStep::Efisp)).1, WriteNext::Done);
}
