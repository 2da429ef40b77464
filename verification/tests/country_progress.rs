use ltbox_gui::country::{
    plan_for_detected_code, settle_country_partition, CountryPatchProgress,
    DetectedCodePlan, SettleStep,
};

#[test]
fn progress_complete_only_when_every_label_is_done() {
    let mut p = CountryPatchProgress::new(&["devinfo", "persist"]);
    assert_eq!(
        p.finish(),
        Err("country-code patch incomplete (missing devinfo, persist)".to_string())
    );
    p.mark_flashed("devinfo");
    assert_eq!(
        p.finish(),
        Err("country-code patch incomplete (missing persist)".to_string())
    );
    p.mark_flashed("persist");
    assert_eq!(p.finish(), Ok(()));
}

#[test]
fn progress_marking_twice_is_marking_once() {
    let mut a = CountryPatchProgress::new(&["oemowninfo"]);
    a.mark_flashed("oemowninfo");
    a.mark_flashed("oemowninfo");
    assert_eq!(a.finish(), Ok(()));
}

#[test]
fn progress_failure_is_final() {
    let mut p = CountryPatchProgress::new(&["devinfo", "persist"]);
    p.mark_failed("persist", "dump failed: timeout");
    p.mark_flashed("devinfo");
    p.mark_flashed("persist");
    assert_eq!(
        p.finish(),
        Err("country-code patch incomplete (persist: dump failed: timeout)".to_string())
    );
    p.mark_failed("devinfo", "no replacements");
    assert_eq!(
        p.finish(),
        Err(
            "country-code patch incomplete (persist: dump failed: timeout; devinfo: no replacements)"
                .to_string()
        )
    );
}

#[test]
fn progress_failures_and_missing_are_both_reported() {
    let mut p = CountryPatchProgress::new(&["devinfo", "persist"]);
    p.mark_failed("devinfo", "no hardcoded LUN for label");
    assert_eq!(
        p.finish(),
        Err(
            "country-code patch incomplete (devinfo: no hardcoded LUN for label; missing devinfo, persist)"
                .to_string()
        )
    );
}

#[test]
fn progress_order_of_marks_does_not_matter() {
    let mut a = CountryPatchProgress::new(&["devinfo", "persist"]);
    a.mark_flashed("persist");
    a.mark_flashed("devinfo");
    let mut b = CountryPatchProgress::new(&["devinfo", "persist"]);
    b.mark_flashed("devinfo");
    b.mark_flashed("persist");
    assert_eq!(a.finish(), b.finish());
    // An unexpected label does not complete the run.
    let mut c = CountryPatchProgress::new(&["devinfo"]);
    c.mark_flashed("persist");
    assert_eq!(
        c.finish(),
        Err("country-code patch incomplete (missing devinfo)".to_string())
    );
    // Nothing expected, nothing failed: complete.
    assert_eq!(CountryPatchProgress::new(&[]).finish(), Ok(()));
}

#[test]
fn detected_code_plans() {
    assert_eq!(plan_for_detected_code("devinfo", Some("US")), DetectedCodePlan::PatchFound);
    assert_eq!(plan_for_detected_code("persist", Some("US")), DetectedCodePlan::PatchFound);
    assert_eq!(plan_for_detected_code("persist", None), DetectedCodePlan::PassThrough);
    assert_eq!(plan_for_detected_code("devinfo", None), DetectedCodePlan::GiveUp);
    assert_eq!(plan_for_detected_code("oemowninfo", None), DetectedCodePlan::GiveUp);
}

#[test]
fn settle_steps() {
    assert_eq!(
        settle_country_partition("devinfo", true, Some("US"), "DE"),
        SettleStep::FlashPatched
    );
    assert_eq!(
        settle_country_partition("devinfo", false, Some("DE"), "DE"),
        SettleStep::AlreadyTarget
    );
    assert_eq!(
        settle_country_partition("persist", false, None, "DE"),
        SettleStep::PassThrough
    );
    assert_eq!(
        settle_country_partition("devinfo", false, Some("US"), "DE"),
        SettleStep::NoReplacements
    );
    assert_eq!(
        settle_country_partition("devinfo", false, None, "DE"),
        SettleStep::NoReplacements
    );
}

