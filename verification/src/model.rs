//! Device model identity: matching a model name against the tokens of an
//! Android build fingerprint, and recovering the model of a device that
//! was probed only over EDL.

use vstd::prelude::*;
use crate::text::{
    char_is_ascii_alnum, chars_of, eq_ignore_ascii_case_spec, is_ascii_alnum,
    seq_eq_ignore_ascii_case,
};

verus! {

/// `s[i..j]` is a whole token of `s`: a maximal non-empty run of ASCII
/// letters and digits.
pub open spec fn is_token(s: Seq<char>, i: int, j: int) -> bool {
    &&& 0 <= i < j <= s.len()
    &&& (i == 0 || !is_ascii_alnum(s[i - 1]))
    &&& (j == s.len() || !is_ascii_alnum(s[j]))
    &&& forall|k: int| i <= k < j ==> #[trigger] is_ascii_alnum(s[k])
}

/// Some token of the fingerprint `fp` equals `model` up to ASCII case.
/// (A build fingerprint reads like `Lenovo/TB323FU/TB323FU:14/...`.)
pub open spec fn token_match_spec(fp: Seq<char>, model: Seq<char>) -> bool {
    exists|i: int, j: int| is_token(fp, i, j) && eq_ignore_ascii_case_spec(fp.subrange(i, j), model)
}

/// Whether `model` appears as a whole token of the fingerprint `fp`,
/// ignoring ASCII case. An empty `model` never matches.
pub fn fingerprint_token_match(fp: &str, model: &str) -> (r: bool)
    ensures
        r == token_match_spec(fp@, model@),
{
    let s = chars_of(fp);
    let m = chars_of(model);
    let n = s.len();
    let mut i: usize = 0;
    while i < n
        invariant
            s@ == fp@,
            m@ == model@,
            n == s.len(),
            i <= n,
            forall|a: int, b: int|
                #![trigger is_token(fp@, a, b)]
                0 <= a < i && is_token(fp@, a, b) ==> !eq_ignore_ascii_case_spec(
                    fp@.subrange(a, b),
                    model@,
                ),
        decreases n - i,
    {
        let starts = char_is_ascii_alnum(s[i]) && (i == 0 || !char_is_ascii_alnum(s[i - 1]));
        if starts {
            let mut j: usize = i + 1;
            while j < n && char_is_ascii_alnum(s[j])
                invariant
                    s@ == fp@,
                    n == s.len(),
                    i < j <= n,
                    forall|k: int| i <= k < j ==> #[trigger] is_ascii_alnum(fp@[k]),
                decreases n - j,
            {
                j += 1;
            }
            assert(is_token(fp@, i as int, j as int));
            if seq_eq_ignore_ascii_case(&s, i, j, &m) {
                return true;
            }
            assert forall|b: int| is_token(fp@, i as int, b) implies b == j by {
                if b < j {
                    assert(is_ascii_alnum(fp@[b]));
                }
                if b > j {
                    assert(is_ascii_alnum(fp@[j as int]));
                }
            }
        }
        i += 1;
    }
    false
}


/// The supported Lenovo SKUs, in the order they are tried.
pub open spec fn supported_models_spec() -> Seq<Seq<char>> {
    seq!["TB320FC"@, "TB321FU"@, "TB322FC"@, "TB323FU"@, "TB520FU"@, "TB710FU"@]
}

/// The supported Lenovo SKUs.
pub fn supported_models() -> (r: [&'static str; 6])
    ensures
        r@.map_values(|m: &str| m@) == supported_models_spec(),
{
    let r = ["TB320FC", "TB321FU", "TB322FC", "TB323FU", "TB520FU", "TB710FU"];
    assert(r@.map_values(|m: &str| m@) =~= supported_models_spec());
    r
}

/// The firmware fingerprint (if any) names model `m`.
pub open spec fn firmware_names(fw: Option<Seq<char>>, m: Seq<char>) -> bool {
    fw matches Some(f) && token_match_spec(f, m)
}

/// Device fingerprint `i` names supported model `k`, and (when `full`) the
/// firmware fingerprint names it too.
pub open spec fn pair_ok(fps: Seq<Seq<char>>, fw: Option<Seq<char>>, full: bool, i: int, k: int) -> bool {
    &&& 0 <= i < fps.len()
    &&& 0 <= k < 6
    &&& token_match_spec(fps[i], supported_models_spec()[k])
    &&& full ==> firmware_names(fw, supported_models_spec()[k])
}

/// `(i2, k2)` comes before `(i, k)`: fingerprints in order, then models.
pub open spec fn lex_before(i2: int, k2: int, i: int, k: int) -> bool {
    i2 < i || (i2 == i && k2 < k)
}

/// `(i, k)` is the first pair (in fingerprint, then model order) that
/// satisfies [`pair_ok`].
pub open spec fn first_ok(fps: Seq<Seq<char>>, fw: Option<Seq<char>>, full: bool, i: int, k: int) -> bool {
    &&& pair_ok(fps, fw, full, i, k)
    &&& forall|i2: int, k2: int|
        #![trigger pair_ok(fps, fw, full, i2, k2)]
        pair_ok(fps, fw, full, i2, k2) ==> !lex_before(i2, k2, i, k)
}

/// The model recovered from the device fingerprints: the first supported
/// model that some device fingerprint names and the firmware names too;
/// failing that, the first one some device fingerprint names; `None` when
/// no device fingerprint names a supported model.
pub open spec fn recovered_model(fps: Seq<Seq<char>>, fw: Option<Seq<char>>) -> Option<Seq<char>> {
    if exists|i: int, k: int| first_ok(fps, fw, true, i, k) {
{
            let (_i, k) = choose|i: int, k: int| first_ok(fps, fw, true, i, k);
            Some(supported_models_spec()[k])
        }
    } else if exists|i: int, k: int| first_ok(fps, fw, false, i, k) {
{
            let (_i, k) = choose|i: int, k: int| first_ok(fps, fw, false, i, k);
            Some(supported_models_spec()[k])
        }
    } else {
        None
    }
}

proof fn lemma_first_ok_unique(
    fps: Seq<Seq<char>>,
    fw: Option<Seq<char>>,
    full: bool,
    i1: int,
    k1: int,
    i2: int,
    k2: int,
)
    requires
        first_ok(fps, fw, full, i1, k1),
        first_ok(fps, fw, full, i2, k2),
    ensures
        i1 == i2 && k1 == k2,
{
    assert(pair_ok(fps, fw, full, i1, k1));
    assert(pair_ok(fps, fw, full, i2, k2));
}

/// Whenever some pair qualifies, a first one does.
pub proof fn lemma_first_exists(fps: Seq<Seq<char>>, fw: Option<Seq<char>>, full: bool, i: int, k: int)
    requires
        pair_ok(fps, fw, full, i, k),
    ensures
        exists|a: int, b: int| first_ok(fps, fw, full, a, b),
    decreases i * 6 + k,
{
    if !first_ok(fps, fw, full, i, k) {
        let (i2, k2) = choose|i2: int, k2: int|
            pair_ok(fps, fw, full, i2, k2) && lex_before(i2, k2, i, k);
        lemma_first_exists(fps, fw, full, i2, k2);
    }
}

/// Law: model recovery prefers the firmware's model. When some device
/// fingerprint names a supported model that the firmware names too, the
/// recovered model is such a model; otherwise, when some device fingerprint
/// names a supported model, that (first) one is recovered; nothing is
/// recovered only when no device fingerprint names a supported model.
pub proof fn lemma_recovery_prefers_firmware_model(fps: Seq<Seq<char>>, fw: Option<Seq<char>>)
    ensures
        (exists|i: int, k: int| pair_ok(fps, fw, true, i, k)) ==> (recovered_model(fps, fw) matches Some(
            m,
        ) && firmware_names(fw, m) && exists|i: int|
            0 <= i < fps.len() && token_match_spec(#[trigger] fps[i], m)),
        recovered_model(fps, fw) is None <==> !exists|i: int, k: int| pair_ok(fps, fw, false, i, k),
        recovered_model(fps, fw) matches Some(m) ==> exists|i: int|
            0 <= i < fps.len() && token_match_spec(#[trigger] fps[i], m),
{
    if exists|i: int, k: int| pair_ok(fps, fw, true, i, k) {
        let (i, k) = choose|i: int, k: int| pair_ok(fps, fw, true, i, k);
        lemma_first_exists(fps, fw, true, i, k);
        let (a, b) = choose|a: int, b: int| first_ok(fps, fw, true, a, b);
        assert(token_match_spec(fps[a], supported_models_spec()[b]));
    }
    if exists|i: int, k: int| pair_ok(fps, fw, false, i, k) {
        let (i, k) = choose|i: int, k: int| pair_ok(fps, fw, false, i, k);
        lemma_first_exists(fps, fw, false, i, k);
        let (a, b) = choose|a: int, b: int| first_ok(fps, fw, false, a, b);
        assert(token_match_spec(fps[a], supported_models_spec()[b]));
    } else {
        assert forall|i: int, k: int| !first_ok(fps, fw, true, i, k) by {
            if first_ok(fps, fw, true, i, k) {
                assert(pair_ok(fps, fw, false, i, k));
            }
        }
        assert forall|i: int, k: int| !first_ok(fps, fw, false, i, k) by {
            if first_ok(fps, fw, false, i, k) {
                assert(pair_ok(fps, fw, false, i, k));
            }
        }
    }
    if let Some(m) = recovered_model(fps, fw) {
        if exists|a: int, b: int| first_ok(fps, fw, true, a, b) {
            let (a, b) = choose|a: int, b: int| first_ok(fps, fw, true, a, b);
            assert(token_match_spec(fps[a], supported_models_spec()[b]));
        } else {
            let (a, b) = choose|a: int, b: int| first_ok(fps, fw, false, a, b);
            assert(token_match_spec(fps[a], supported_models_spec()[b]));
        }
    }
}

/// Recovers the device model from the fingerprints dumped off the device,
/// preferring a model the target firmware also names (a device left
/// mid-cross-flash can carry a stale non-matching slot).
pub fn recover_model_token(device_fps: &Vec<String>, firmware_fp: Option<&str>) -> (r: Option<
    &'static str,
>)
    ensures
        (match r {
            Some(m) => Some(m@),
            None => None,
        }) == recovered_model(
            crate::text::string_views(device_fps@),
            match firmware_fp {
                Some(f) => Some(f@),
                None => None,
            },
        ),
{
    let ghost fps = crate::text::string_views(device_fps@);
    let ghost fw: Option<Seq<char>> = match firmware_fp {
        Some(f) => Some(f@),
        None => None,
    };
    let models = supported_models();
    let mut found: Option<usize> = None;
    let ghost mut found_i: int = 0;
    let mut i: usize = 0;
    while i < device_fps.len()
        invariant
            fps == crate::text::string_views(device_fps@),
            fps.len() == device_fps.len(),
            models@.map_values(|m: &str| m@) == supported_models_spec(),
            fw == (match firmware_fp {
                Some(f) => Some(f@),
                None => None,
            }),
            i <= device_fps.len(),
            forall|i2: int, k2: int|
                #![trigger pair_ok(fps, fw, true, i2, k2)]
                i2 < i ==> !pair_ok(fps, fw, true, i2, k2),
            found is None ==> forall|i2: int, k2: int|
                #![trigger pair_ok(fps, fw, false, i2, k2)]
                i2 < i ==> !pair_ok(fps, fw, false, i2, k2),
            found matches Some(k0) ==> k0 < 6 && first_ok(fps, fw, false, found_i, k0 as int),
        decreases device_fps.len() - i,
    {
        let mut k: usize = 0;
        while k < 6
            invariant
                fps == crate::text::string_views(device_fps@),
                fps.len() == device_fps.len(),
                models@.map_values(|m: &str| m@) == supported_models_spec(),
                fw == (match firmware_fp {
                    Some(f) => Some(f@),
                    None => None,
                }),
                i < device_fps.len(),
                k <= 6,
                forall|i2: int, k2: int|
                    #![trigger pair_ok(fps, fw, true, i2, k2)]
                    lex_before(i2, k2, i as int, k as int) ==> !pair_ok(fps, fw, true, i2, k2),
                found is None ==> forall|i2: int, k2: int|
                    #![trigger pair_ok(fps, fw, false, i2, k2)]
                    lex_before(i2, k2, i as int, k as int) ==> !pair_ok(fps, fw, false, i2, k2),
                found matches Some(k0) ==> k0 < 6 && first_ok(fps, fw, false, found_i, k0 as int),
            decreases 6 - k,
        {
            assert(models@.map_values(|m: &str| m@)[k as int] == models@[k as int]@);
            assert(fps[i as int] == device_fps@[i as int]@);
            if fingerprint_token_match(device_fps[i].as_str(), models[k]) {
                let fw_ok = match firmware_fp {
                    Some(f) => fingerprint_token_match(f, models[k]),
                    None => false,
                };
                if fw_ok {
                    proof {
                        assert(pair_ok(fps, fw, true, i as int, k as int));
                        assert(first_ok(fps, fw, true, i as int, k as int));
                        let (ii, kk) = choose|ii: int, kk: int| first_ok(fps, fw, true, ii, kk);
                        lemma_first_ok_unique(fps, fw, true, ii, kk, i as int, k as int);
                    }
                    return Some(models[k]);
                }
                if found.is_none() {
                    proof {
                        assert(pair_ok(fps, fw, false, i as int, k as int));
                        found_i = i as int;
                    }
                    found = Some(k);
                }
            }
            k += 1;
        }
        i += 1;
    }
    proof {
        assert forall|i2: int, k2: int| !first_ok(fps, fw, true, i2, k2) by {
            if first_ok(fps, fw, true, i2, k2) {
                assert(pair_ok(fps, fw, true, i2, k2));
            }
        }
    }
    match found {
        Some(k0) => {
            proof {
                let (ii, kk) = choose|ii: int, kk: int| first_ok(fps, fw, false, ii, kk);
                lemma_first_ok_unique(fps, fw, false, ii, kk, found_i, k0 as int);
                assert(models@.map_values(|m: &str| m@)[k0 as int] == models@[k0 as int]@);
            }
            Some(models[k0])
        },
        None => {
            proof {
                assert forall|i2: int, k2: int| !first_ok(fps, fw, false, i2, k2) by {
                    if first_ok(fps, fw, false, i2, k2) {
                        assert(pair_ok(fps, fw, false, i2, k2));
                    }
                }
            }
            None
        },
    }
}


/// Why an EDL-start flash cannot identify the device.
#[derive(Debug, Clone, Copy, PartialEq, Eq, Structural)]
pub enum EdlProbeError {
    /// No usable AVB image was read off the device.
    AvbInvalid,
    /// No supported model was recovered, or the firmware is for another one.
    ModelMismatch,
}

/// Identity of a device probed only over EDL, from the fingerprints of the
/// `vbmeta_system` images dumped off both slots: the recovered model, and
/// whether its rollback floors must be read (every model but the
/// unprotected TB322FC).
pub fn edl_start_identity(device_fps: &Vec<String>, firmware_fp: Option<&str>) -> (r: Result<
    (&'static str, bool),
    EdlProbeError,
>)
    ensures
        device_fps.len() == 0 ==> r == Err::<(&'static str, bool), EdlProbeError>(
            EdlProbeError::AvbInvalid,
        ),
        device_fps.len() > 0 ==> match recovered_model(
            crate::text::string_views(device_fps@),
            match firmware_fp {
                Some(f) => Some(f@),
                None => None,
            },
        ) {
            Some(m) => if firmware_names(
                match firmware_fp {
                    Some(f) => Some(f@),
                    None => None,
                },
                m,
            ) {
                r matches Ok((t, needs_floors)) && t@ == m && needs_floors == !eq_ignore_ascii_case_spec(
                    m,
                    "TB322FC"@,
                )
            } else {
                r == Err::<(&'static str, bool), EdlProbeError>(EdlProbeError::ModelMismatch)
            },
            None => r == Err::<(&'static str, bool), EdlProbeError>(EdlProbeError::ModelMismatch),
        },
{
    if device_fps.len() == 0 {
        return Err(EdlProbeError::AvbInvalid);
    }
    let model = match recover_model_token(device_fps, firmware_fp) {
        Some(m) => m,
        None => {
            return Err(EdlProbeError::ModelMismatch);
        },
    };
    let firmware_matches = match firmware_fp {
        Some(f) => fingerprint_token_match(f, model),
        None => false,
    };
    if !firmware_matches {
        return Err(EdlProbeError::ModelMismatch);
    }
    let needs_floors = !crate::text::eq_ignore_ascii_case(model, "TB322FC");
    Ok((model, needs_floors))
}

} // verus!
