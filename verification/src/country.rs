//! Country-code partitions: which partitions carry a model's country
//! code, and the bookkeeping of a country-code patch run.

use vstd::prelude::*;
use crate::model::{fingerprint_token_match, token_match_spec};
use crate::text::{
    join_spec, join_strings, str_eq, string_views, contains_spec, lemma_contains_middle,
    lemma_contains_trans, lemma_join_contains_item,
};
use vstd::string::*;

verus! {

/// The models that keep their country code in `oemowninfo` alone.
pub open spec fn is_oemowninfo_model(device_model: Seq<char>, fingerprint: Option<Seq<char>>) -> bool {
    ||| token_match_spec(device_model, "TB320FC"@)
    ||| token_match_spec(device_model, "TB323FU"@)
    ||| (fingerprint matches Some(fp) && (token_match_spec(fp, "TB320FC"@) || token_match_spec(
        fp,
        "TB323FU"@,
    )))
}

pub open spec fn str_views(s: Seq<&str>) -> Seq<Seq<char>> {
    s.map_values(|x: &str| x@)
}

/// Either token test passes for `model`, on the device model name or on the
/// firmware fingerprint.
fn model_or_fingerprint_matches(device_model: &str, firmware_fingerprint: Option<&str>, model: &str) -> (r: bool)
    ensures
        r == (token_match_spec(device_model@, model@) || (match firmware_fingerprint {
            Some(fp) => token_match_spec(fp@, model@),
            None => false,
        })),
{
    let by_fp = match firmware_fingerprint {
        Some(fp) => fingerprint_token_match(fp, model),
        None => false,
    };
    by_fp || fingerprint_token_match(device_model, model)
}

/// Country-code partitions to dump, patch and flash for a model: TB320FC
/// and TB323FU keep the code only in `oemowninfo`; every other model keeps
/// it in `devinfo` and `persist`. The model is matched against the
/// firmware fingerprint or the probed model name.
pub fn country_partitions_for(
    device_model: &str,
    firmware_fingerprint: Option<&str>,
) -> (r: &'static [&'static str])
    ensures
        str_views(r@) == (if is_oemowninfo_model(
            device_model@,
            match firmware_fingerprint {
                Some(fp) => Some(fp@),
                None => None,
            },
        ) {
            seq!["oemowninfo"@]
        } else {
            seq!["devinfo"@, "persist"@]
        }),
{
    let oemowninfo = model_or_fingerprint_matches(device_model, firmware_fingerprint, "TB320FC")
        || model_or_fingerprint_matches(device_model, firmware_fingerprint, "TB323FU");
    if oemowninfo {
        let r: &'static [&'static str] = &["oemowninfo"];
        assert(str_views(r@) =~= seq!["oemowninfo"@]);
        r
    } else {
        let r: &'static [&'static str] = &["devinfo", "persist"];
        assert(str_views(r@) =~= seq!["devinfo"@, "persist"@]);
        r
    }
}


/// `done` after `label` is recorded as flashed or confirmed: a label is
/// recorded once.
pub open spec fn mark_spec(done: Seq<Seq<char>>, label: Seq<char>) -> Seq<Seq<char>> {
    if done.contains(label) {
        done
    } else {
        done.push(label)
    }
}

/// The expected labels that `done` does not hold, in expected order.
pub open spec fn missing_spec(expected: Seq<Seq<char>>, done: Seq<Seq<char>>) -> Seq<Seq<char>>
    decreases expected.len(),
{
    if expected.len() == 0 {
        Seq::empty()
    } else {
        let rest = missing_spec(expected.drop_last(), done);
        if done.contains(expected.last()) {
            rest
        } else {
            rest.push(expected.last())
        }
    }
}

/// The failure line recorded for `label`: `"<label>: <reason>"`.
pub open spec fn failure_entry(label: Seq<char>, reason: Seq<char>) -> Seq<char> {
    label + ": "@ + reason
}

/// The error text of an incomplete run: the failures joined by `"; "`,
/// then `"missing "` and the missing labels joined by `", "`, each part
/// present only when non-empty.
pub open spec fn finish_message(failures: Seq<Seq<char>>, missing: Seq<Seq<char>>) -> Seq<char> {
    let failure_part: Seq<Seq<char>> = if failures.len() > 0 {
        seq![join_spec(failures, "; "@)]
    } else {
        Seq::empty()
    };
    let missing_part: Seq<Seq<char>> = if missing.len() > 0 {
        seq!["missing "@ + join_spec(missing, ", "@)]
    } else {
        Seq::empty()
    };
    "country-code patch incomplete ("@ + join_spec(failure_part + missing_part, "; "@) + ")"@
}

/// The outcome of a run: complete when no failure was recorded and every
/// expected label was flashed or confirmed.
pub open spec fn finish_spec(
    expected: Seq<Seq<char>>,
    done: Seq<Seq<char>>,
    failures: Seq<Seq<char>>,
) -> Result<(), Seq<char>> {
    let missing = missing_spec(expected, done);
    if failures.len() == 0 && missing.len() == 0 {
        Ok(())
    } else {
        Err(finish_message(failures, missing))
    }
}

/// A label is in the missing list exactly when it is expected and not done.
pub proof fn lemma_missing_members(expected: Seq<Seq<char>>, done: Seq<Seq<char>>, l: Seq<char>)
    ensures
        missing_spec(expected, done).contains(l) <==> (expected.contains(l) && !done.contains(l)),
    decreases expected.len(),
{
    if expected.len() > 0 {
        lemma_missing_members(expected.drop_last(), done, l);
        assert(expected =~= expected.drop_last().push(expected.last()));
        if expected.contains(l) && !expected.drop_last().contains(l) {
            let k = choose|k: int| 0 <= k < expected.len() && expected[k] == l;
            if k < expected.len() - 1 {
                assert(expected.drop_last()[k] == l);
            }
        }
        if expected.drop_last().contains(l) {
            let k = choose|k: int| 0 <= k < expected.len() - 1 && expected.drop_last()[k] == l;
            assert(expected[k] == l);
        }
        let rest = missing_spec(expected.drop_last(), done);
        if !done.contains(expected.last()) {
            assert(rest.push(expected.last())[rest.len() as int] == expected.last());
            if rest.push(expected.last()).contains(l) && l != expected.last() {
                let k = choose|k: int| 0 <= k < rest.len() + 1 && rest.push(expected.last())[k] == l;
                assert(rest[k] == l);
            }
            if rest.contains(l) {
                let k = choose|k: int| 0 <= k < rest.len() && rest[k] == l;
                assert(rest.push(expected.last())[k] == l);
            }
        }
    }
}

/// The missing list is empty exactly when every expected label is done.
pub proof fn lemma_missing_empty(expected: Seq<Seq<char>>, done: Seq<Seq<char>>)
    ensures
        missing_spec(expected, done).len() == 0 <==> (forall|l: Seq<char>|
            expected.contains(l) ==> #[trigger] done.contains(l)),
{
    let m = missing_spec(expected, done);
    if m.len() > 0 {
        lemma_missing_members(expected, done, m[0]);
        assert(m.contains(m[0]));
    } else {
        assert forall|l: Seq<char>| expected.contains(l) implies #[trigger] done.contains(l) by {
            lemma_missing_members(expected, done, l);
        }
    }
}

/// Law: recording a label as flashed twice leaves the record as once.
pub proof fn lemma_mark_flashed_idempotent(done: Seq<Seq<char>>, label: Seq<char>)
    ensures
        mark_spec(mark_spec(done, label), label) == mark_spec(done, label),
{
    if !done.contains(label) {
        assert(done.push(label)[done.len() as int] == label);
    }
}

/// Law: a run finishes `Ok` exactly when no failure was recorded and every
/// expected label was flashed or confirmed.
pub proof fn lemma_finish_ok_iff_complete(
    expected: Seq<Seq<char>>,
    done: Seq<Seq<char>>,
    failures: Seq<Seq<char>>,
)
    ensures
        finish_spec(expected, done, failures) is Ok <==> (failures.len() == 0 && forall|l: Seq<char>|
            expected.contains(l) ==> #[trigger] done.contains(l)),
{
    lemma_missing_empty(expected, done);
}

/// Law: once a failure is recorded, the run cannot finish `Ok`, whatever is
/// recorded afterwards.
pub proof fn lemma_failure_is_final(
    expected: Seq<Seq<char>>,
    done: Seq<Seq<char>>,
    failures: Seq<Seq<char>>,
    label: Seq<char>,
    reason: Seq<char>,
)
    ensures
        finish_spec(expected, done, failures.push(failure_entry(label, reason))) is Err,
{
}

/// Law: a recorded failure line is never cleared: after it, whatever else is
/// recorded (more failures, `later`, and any flashed labels, `done`), the
/// run finishes with an error whose text still contains that line.
pub proof fn lemma_failure_line_survives(
    expected: Seq<Seq<char>>,
    done: Seq<Seq<char>>,
    failures: Seq<Seq<char>>,
    later: Seq<Seq<char>>,
    label: Seq<char>,
    reason: Seq<char>,
)
    requires
        failures.contains(failure_entry(label, reason)),
    ensures
        finish_spec(expected, done, failures + later) matches Err(m) && contains_spec(
            m,
            failure_entry(label, reason),
        ),
{
    let all = failures + later;
    let k = choose|k: int| 0 <= k < failures.len() && failures[k] == failure_entry(label, reason);
    assert(all[k] == failure_entry(label, reason));
    let missing = missing_spec(expected, done);
    let joined = join_spec(all, "; "@);
    let fp: Seq<Seq<char>> = seq![joined];
    let mp: Seq<Seq<char>> = if missing.len() > 0 {
        seq!["missing "@ + join_spec(missing, ", "@)]
    } else {
        Seq::empty()
    };
    let parts = fp + mp;
    assert(parts[0] == joined);
    lemma_join_contains_item(all, "; "@, k);
    lemma_join_contains_item(parts, "; "@, 0);
    let outer = join_spec(parts, "; "@);
    lemma_contains_middle("country-code patch incomplete ("@, outer, ")"@);
    lemma_contains_trans(outer, joined, failure_entry(label, reason));
    lemma_contains_trans(
        "country-code patch incomplete ("@ + outer + ")"@,
        outer,
        failure_entry(label, reason),
    );
}

/// Two records holding the same labels leave the same labels missing.
pub proof fn lemma_missing_same_members(
    expected: Seq<Seq<char>>,
    d1: Seq<Seq<char>>,
    d2: Seq<Seq<char>>,
)
    requires
        forall|l: Seq<char>| d1.contains(l) <==> d2.contains(l),
    ensures
        missing_spec(expected, d1) == missing_spec(expected, d2),
    decreases expected.len(),
{
    if expected.len() > 0 {
        lemma_missing_same_members(expected.drop_last(), d1, d2);
        assert(d1.contains(expected.last()) == d2.contains(expected.last()));
    }
}

/// `label` is held after it is marked, and so is everything held before.
pub proof fn lemma_mark_members(done: Seq<Seq<char>>, label: Seq<char>, l: Seq<char>)
    ensures
        mark_spec(done, label).contains(l) <==> (done.contains(l) || l == label),
{
    if !done.contains(label) {
        let d = done.push(label);
        assert(d[done.len() as int] == label);
        if d.contains(l) && l != label {
            let k = choose|k: int| 0 <= k < d.len() && d[k] == l;
            assert(done[k] == l);
        }
        if done.contains(l) {
            let k = choose|k: int| 0 <= k < done.len() && done[k] == l;
            assert(d[k] == l);
        }
    }
}

/// Law: the order in which two labels are marked flashed does not change
/// the outcome of the run.
pub proof fn lemma_mark_order_irrelevant(
    expected: Seq<Seq<char>>,
    done: Seq<Seq<char>>,
    failures: Seq<Seq<char>>,
    a: Seq<char>,
    b: Seq<char>,
)
    ensures
        finish_spec(expected, mark_spec(mark_spec(done, a), b), failures) == finish_spec(
            expected,
            mark_spec(mark_spec(done, b), a),
            failures,
        ),
{
    let d1 = mark_spec(mark_spec(done, a), b);
    let d2 = mark_spec(mark_spec(done, b), a);
    assert forall|l: Seq<char>| d1.contains(l) <==> d2.contains(l) by {
        lemma_mark_members(done, a, l);
        lemma_mark_members(mark_spec(done, a), b, l);
        lemma_mark_members(done, b, l);
        lemma_mark_members(mark_spec(done, b), a, l);
    }
    lemma_missing_same_members(expected, d1, d2);
}

/// What a country-code run does with a partition once it has looked for a
/// known country code in the dump.
#[derive(Debug, Clone, Copy, PartialEq, Eq, Structural)]
pub enum DetectedCodePlan {
    /// A code was found: patch it to the target code.
    PatchFound,
    /// `persist` carries no country code: nothing to patch, the partition
    /// is settled after the dump and backup.
    PassThrough,
    /// No known code in a partition that should hold one: record the
    /// failure `"no known code detected"` and move on.
    GiveUp,
}

/// Plan for a dumped partition given the country code found in it (if any).
pub fn plan_for_detected_code(label: &str, detected: Option<&str>) -> (r: DetectedCodePlan)
    ensures
        r == (if detected is Some {
            DetectedCodePlan::PatchFound
        } else if label@ == "persist"@ {
            DetectedCodePlan::PassThrough
        } else {
            DetectedCodePlan::GiveUp
        }),
{
    match detected {
        Some(_) => DetectedCodePlan::PatchFound,
        None => {
            if str_eq(label, "persist") {
                DetectedCodePlan::PassThrough
            } else {
                DetectedCodePlan::GiveUp
            }
        },
    }
}

/// How a partition is settled once its patch step is over.
#[derive(Debug, Clone, Copy, PartialEq, Eq, Structural)]
pub enum SettleStep {
    /// The code changed: flash the patched image once (the flash result
    /// then decides flashed or failed).
    FlashPatched,
    /// The partition already carries the target code: record it as done.
    AlreadyTarget,
    /// `persist` with nothing to change: record it as done.
    PassThrough,
    /// Nothing was replaced: record the failure `"no replacements"`.
    NoReplacements,
}

/// Settles a partition after the patch step: `changed` tells whether the
/// patch rewrote the code, `detected` is the code found before patching.
pub fn settle_country_partition(
    label: &str,
    changed: bool,
    detected: Option<&str>,
    target_code: &str,
) -> (r: SettleStep)
    ensures
        r == (if changed {
            SettleStep::FlashPatched
        } else if (match detected {
            Some(d) => d@ == target_code@,
            None => false,
        }) {
            SettleStep::AlreadyTarget
        } else if label@ == "persist"@ {
            SettleStep::PassThrough
        } else {
            SettleStep::NoReplacements
        }),
{
    if changed {
        return SettleStep::FlashPatched;
    }
    let already = match detected {
        Some(d) => str_eq(d, target_code),
        None => false,
    };
    if already {
        SettleStep::AlreadyTarget
    } else if str_eq(label, "persist") {
        SettleStep::PassThrough
    } else {
        SettleStep::NoReplacements
    }
}

/// Per-run record of a country-code patch: the labels that must be
/// patched, those flashed or confirmed so far, and the failures.
#[derive(Debug)]
pub struct CountryPatchProgress {
    expected: Vec<String>,
    flashed_or_confirmed: Vec<String>,
    failures: Vec<String>,
}

/// `label` is one of the items of `list`.
fn contains_label(list: &Vec<String>, label: &str) -> (r: bool)
    ensures
        r == string_views(list@).contains(label@),
{
    let mut i: usize = 0;
    while i < list.len()
        invariant
            i <= list.len(),
            forall|j: int| 0 <= j < i ==> list@[j]@ != label@,
        decreases list.len() - i,
    {
        if str_eq(list[i].as_str(), label) {
            assert(string_views(list@)[i as int] == label@);
            return true;
        }
        i += 1;
    }
    assert(!string_views(list@).contains(label@)) by {
        if string_views(list@).contains(label@) {
            let k = choose|k: int| 0 <= k < list@.len() && string_views(list@)[k] == label@;
            assert(list@[k]@ == label@);
        }
    }
    false
}

impl CountryPatchProgress {
    /// The labels that must be patched for the run to count as complete.
    pub closed spec fn expected_view(&self) -> Seq<Seq<char>> {
        string_views(self.expected@)
    }

    /// The labels flashed or confirmed so far, in first-recorded order.
    pub closed spec fn done_view(&self) -> Seq<Seq<char>> {
        string_views(self.flashed_or_confirmed@)
    }

    /// The failure lines recorded so far, in order.
    pub closed spec fn failures_view(&self) -> Seq<Seq<char>> {
        string_views(self.failures@)
    }

    /// Well-formed: no label is recorded twice as flashed.
    pub open spec fn wf(&self) -> bool {
        self.done_view().no_duplicates()
    }

    /// A run that expects `expected` and has recorded nothing yet.
    pub fn new(expected: &[&str]) -> (p: Self)
        ensures
            p.expected_view() == str_views(expected@),
            p.done_view() == Seq::<Seq<char>>::empty(),
            p.failures_view() == Seq::<Seq<char>>::empty(),
            p.wf(),
    {
        let mut labels: Vec<String> = Vec::new();
        let mut i: usize = 0;
        while i < expected.len()
            invariant
                i <= expected.len(),
                string_views(labels@) == str_views(expected@.take(i as int)),
            decreases expected.len() - i,
        {
            let ghost before = string_views(labels@);
            labels.push(String::from_str(expected[i]));
            assert(string_views(labels@) =~= before.push(expected@[i as int]@));
            assert(expected@.take(i + 1) =~= expected@.take(i as int).push(expected@[i as int]));
            assert(str_views(expected@.take(i + 1)) =~= str_views(expected@.take(i as int)).push(
                expected@[i as int]@,
            ));
            i += 1;
        }
        assert(expected@.take(expected.len() as int) =~= expected@);
        let p = CountryPatchProgress {
            expected: labels,
            flashed_or_confirmed: Vec::new(),
            failures: Vec::new(),
        };
        assert(p.done_view() =~= Seq::<Seq<char>>::empty());
        assert(p.failures_view() =~= Seq::<Seq<char>>::empty());
        p
    }

    /// Records `label` as flashed or already carrying the target code.
    /// A label is recorded once.
    pub fn mark_flashed(&mut self, label: &str)
        ensures
            final(self).done_view() == mark_spec(old(self).done_view(), label@),
            final(self).expected_view() == old(self).expected_view(),
            final(self).failures_view() == old(self).failures_view(),
            old(self).wf() ==> final(self).wf(),
    {
        if !contains_label(&self.flashed_or_confirmed, label) {
            let ghost before = self.done_view();
            self.flashed_or_confirmed.push(String::from_str(label));
            assert(self.done_view() =~= before.push(label@));
        }
    }

    /// Records a failure for `label` with its reason, as `"<label>: <reason>"`.
    pub fn mark_failed(&mut self, label: &str, reason: &str)
        ensures
            final(self).failures_view() == old(self).failures_view().push(
                failure_entry(label@, reason@),
            ),
            final(self).expected_view() == old(self).expected_view(),
            final(self).done_view() == old(self).done_view(),
            old(self).wf() ==> final(self).wf(),
    {
        let mut line = String::from_str(label);
        line.append(": ");
        line.append(reason);
        let ghost before = self.failures_view();
        self.failures.push(line);
        assert(self.failures_view() =~= before.push(failure_entry(label@, reason@)));
    }

    /// `Ok` when the run is complete, else the error text naming the
    /// failures and the labels still missing.
    pub fn finish(&self) -> (r: Result<(), String>)
        ensures
            match r {
                Ok(()) => finish_spec(self.expected_view(), self.done_view(), self.failures_view())
                    is Ok,
                Err(e) => finish_spec(self.expected_view(), self.done_view(), self.failures_view())
                    == Err::<(), Seq<char>>(e@),
            },
    {
        let ghost exp = self.expected_view();
        let ghost done = self.done_view();
        let mut missing: Vec<String> = Vec::new();
        let mut i: usize = 0;
        while i < self.expected.len()
            invariant
                exp == self.expected_view(),
                done == self.done_view(),
                exp.len() == self.expected.len(),
                i <= self.expected.len(),
                string_views(missing@) == missing_spec(exp.take(i as int), done),
            decreases self.expected.len() - i,
        {
            assert(exp.take(i + 1).drop_last() =~= exp.take(i as int));
            assert(exp.take(i + 1).last() == self.expected@[i as int]@);
            if !contains_label(&self.flashed_or_confirmed, self.expected[i].as_str()) {
                let ghost before = string_views(missing@);
                missing.push(self.expected[i].clone());
                assert(string_views(missing@) =~= before.push(self.expected@[i as int]@));
            }
            i += 1;
        }
        assert(exp.take(self.expected.len() as int) =~= exp);
        if self.failures.len() == 0 && missing.len() == 0 {
            return Ok(());
        }
        let mut parts: Vec<String> = Vec::new();
        if self.failures.len() > 0 {
            parts.push(join_strings(&self.failures, "; "));
        }
        if missing.len() > 0 {
            let mut m = String::from_str("missing ");
            let joined = join_strings(&missing, ", ");
            m.append(joined.as_str());
            parts.push(m);
        }
        let ghost fp: Seq<Seq<char>> = if self.failures_view().len() > 0 {
            seq![join_spec(self.failures_view(), "; "@)]
        } else {
            Seq::empty()
        };
        let ghost mp: Seq<Seq<char>> = if missing@.len() > 0 {
            seq!["missing "@ + join_spec(string_views(missing@), ", "@)]
        } else {
            Seq::empty()
        };
        assert(string_views(parts@) =~= fp + mp);
        let mut msg = String::from_str("country-code patch incomplete (");
        let body = join_strings(&parts, "; ");
        msg.append(body.as_str());
        msg.append(")");
        Err(msg)
    }
}

} // verus!
