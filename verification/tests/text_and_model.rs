use ltbox_gui::model::{edl_start_identity, fingerprint_token_match, recover_model_token, supported_models, EdlProbeError};
use ltbox_gui::text::{
    contains, contains_ignore_ascii_case, eq_ignore_ascii_case, join_strings, push_decimal, starts_with,
    str_eq,
};

#[test]
fn text_helpers_match_std() {
    assert!(str_eq("persist", "persist"));
    assert!(!str_eq("persist", "Persist"));
    assert!(eq_ignore_ascii_case("DevInfo", "devinfo"));
    assert!(!eq_ignore_ascii_case("devinfo", "devinfo_a"));
    assert!(contains("Success\n", "Success"));
    assert!(!contains("Failure", "Success"));
    assert!(contains("anything", ""));
    assert!(contains_ignore_ascii_case("Package INSTALLED", "installed"));
    assert!(starts_with("vendor_boot_a.img", "vendor_boot"));
    assert!(!starts_with("boot", "bootloader"));
    let list = vec!["a".to_string(), "b".to_string(), "c".to_string()];
    assert_eq!(join_strings(&list, ", "), "a, b, c");
    assert_eq!(join_strings(&Vec::new(), ", "), "");
    let mut s = String::from("n=");
    push_decimal(&mut s, 0);
    push_decimal(&mut s, 1907);
    assert_eq!(s, "n=01907");
}

#[test]
fn token_match_finds_whole_tokens_ignoring_case() {
    let fp = "Lenovo/TB323FU/TB323FU:14/UKQ1.231003.002/ZUI_16.0.446_ROW:user/release-keys";
    assert!(fingerprint_token_match(fp, "TB323FU"));
    assert!(fingerprint_token_match(fp, "tb323fu"));
    assert!(fingerprint_token_match(fp, "ROW"));
    assert!(!fingerprint_token_match(fp, "TB323"));
    assert!(!fingerprint_token_match(fp, "TB320FC"));
    assert!(!fingerprint_token_match(fp, ""));
    assert!(!fingerprint_token_match("", "TB323FU"));
    assert!(fingerprint_token_match("TB323FU", "TB323FU"));
    assert!(!fingerprint_token_match("TB323FUX", "TB323FU"));
    assert!(fingerprint_token_match("x_TB323FU_y", "TB323FU"));
}

#[test]
fn supported_models_in_order() {
    assert_eq!(
        supported_models(),
        ["TB320FC", "TB321FU", "TB322FC", "TB323FU", "TB520FU", "TB710FU"]
    );
}

#[test]
fn recovery_prefers_the_firmware_model() {
    let fps = vec![
        "Lenovo/TB320FC/TB320FC:14/x".to_string(),
        "Lenovo/TB323FU/TB323FU:14/y".to_string(),
    ];
    // The stale TB320FC slot comes first, but the firmware names TB323FU.
    assert_eq!(
        recover_model_token(&fps, Some("Lenovo/TB323FU/TB323FU:15/z")),
        Some("TB323FU")
    );
    // No firmware preference: the first recognised model.
    assert_eq!(recover_model_token(&fps, None), Some("TB320FC"));
    assert_eq!(
        recover_model_token(&fps, Some("Lenovo/TB710FU/TB710FU:15/z")),
        Some("TB320FC")
    );
    let unknown = vec!["Lenovo/TB999ZZ/TB999ZZ:14/x".to_string()];
    assert_eq!(recover_model_token(&unknown, Some("Lenovo/TB323FU/x")), None);
    assert_eq!(recover_model_token(&Vec::new(), None), None);
}

#[test]
fn edl_start_identity_cases() {
    assert_eq!(
        edl_start_identity(&Vec::new(), Some("Lenovo/TB323FU/x")),
        Err(EdlProbeError::AvbInvalid)
    );
    let fps = vec!["Lenovo/TB323FU/TB323FU:14/y".to_string()];
    assert_eq!(
        edl_start_identity(&fps, Some("Lenovo/TB323FU/TB323FU:15/z")),
        Ok(("TB323FU", true))
    );
    assert_eq!(
        edl_start_identity(&fps, Some("Lenovo/TB320FC/TB320FC:15/z")),
        Err(EdlProbeError::ModelMismatch)
    );
    assert_eq!(edl_start_identity(&fps, None), Err(EdlProbeError::ModelMismatch));
    let prc = vec!["Lenovo/TB322FC/TB322FC:14/y".to_string()];
    assert_eq!(
        edl_start_identity(&prc, Some("Lenovo/TB322FC/TB322FC:15/z")),
        Ok(("TB322FC", false))
    );
    let unknown = vec!["Lenovo/TB999ZZ/TB999ZZ:14/x".to_string()];
    assert_eq!(
        edl_start_identity(&unknown, Some("Lenovo/TB999ZZ/x")),
        Err(EdlProbeError::ModelMismatch)
    );
}
