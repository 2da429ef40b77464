//! What the wizard screens enable and accept, stated apart from how they
//! are drawn.

use vstd::prelude::*;
use crate::root::{Family, RootMode};
use vstd::string::*;
use crate::text::{decimal_spec, push_decimal};
use crate::text::{chars_of, eq_ignore_ascii_case, eq_ignore_ascii_case_spec, str_eq};

verus! {

/// The primary-action labels (`Start` / `Dump`, as localized) are shown
/// only on a wizard's start screen, where a Cancel button joins them.
pub fn is_start_label(label: &str, start_text: &str, dump_text: &str) -> (r: bool)
    ensures
        r == (label@ == start_text@ || label@ == dump_text@),
{
    str_eq(label, start_text) || str_eq(label, dump_text)
}

/// A wizard's Next/Start button is enabled when its step allows it, no
/// operation is running on the start step, and on the start step the
/// device is reachable.
pub fn wizard_can_advance(
    step_can_next: bool,
    busy: bool,
    is_start_step: bool,
    device_reachable: bool,
) -> (r: bool)
    ensures
        r == (step_can_next && !(busy && is_start_step) && (!is_start_step || device_reachable)),
{
    step_can_next && !(busy && is_start_step) && (!is_start_step || device_reachable)
}

/// TB322FC is PRC-only: the ROW region and the cross-region target are
/// shown disabled for it.
pub fn cross_region_selectable(is_tb322fc: bool) -> (r: bool)
    ensures
        r == !is_tb322fc,
{
    !is_tb322fc
}

/// On a TB322FC only the `CN` country code can be picked.
pub fn country_code_selectable(is_tb322fc: bool, code: &str) -> (r: bool)
    ensures
        r == (!is_tb322fc || eq_ignore_ascii_case_spec(code@, "CN"@)),
{
    !is_tb322fc || eq_ignore_ascii_case(code, "CN")
}

/// Magisk is unavailable on TB320FC (no `init_boot` for its path).
pub fn root_family_selectable(family: Family, is_tb320fc: bool) -> (r: bool)
    ensures
        r == !(is_tb320fc && family == Family::Magisk),
{
    !(is_tb320fc && family == Family::Magisk)
}

/// LKM is unavailable on TB320FC, GKI on TB323FU.
pub fn root_mode_selectable(mode: RootMode, is_tb320fc: bool, is_tb323fu: bool) -> (r: bool)
    ensures
        r == (match mode {
            RootMode::Lkm => !is_tb320fc,
            RootMode::Gki => !is_tb323fu,
        }),
{
    match mode {
        RootMode::Lkm => !is_tb320fc,
        RootMode::Gki => !is_tb323fu,
    }
}

/// Boot Recovery is disabled on platforms known to be unsupported and on
/// TB323FU (its `vendor_boot` / `vbmeta` sit on another LUN).
pub fn rescue_selectable(platform_supported: Option<bool>, is_tb323fu: bool) -> (r: bool)
    ensures
        r == !(platform_supported == Some(false) || is_tb323fu),
{
    let unsupported = match platform_supported {
        Some(false) => true,
        _ => false,
    };
    !(unsupported || is_tb323fu)
}

/// Temporary-file cleanup is offered once a scan found bytes to remove and
/// no device operation or cleanup is running.
pub fn cleanup_enabled(busy: bool, cleaning: bool, temp_files_bytes: Option<u64>) -> (r: bool)
    ensures
        r == (!busy && !cleaning && match temp_files_bytes {
            Some(b) => b > 0,
            None => false,
        }),
{
    let found = match temp_files_bytes {
        Some(b) => b > 0,
        None => false,
    };
    !busy && !cleaning && found
}

/// Picture shown for the connected model on the dashboard.
#[derive(Debug, Clone, Copy, PartialEq, Eq, Structural)]
pub enum Portrait {
    Tb320fc,
    Tb321fu,
    Tb322fc,
    Tb323fu,
    Tb520fu,
    Tb710fu,
    GenericTablet,
}

/// The portrait of a model name, compared without regard to ASCII case;
/// any other model shows the generic tablet.
pub fn device_portrait(model: &str) -> (r: Portrait)
    ensures
        r == (if eq_ignore_ascii_case_spec(model@, "TB320FC"@) {
            Portrait::Tb320fc
        } else if eq_ignore_ascii_case_spec(model@, "TB321FU"@) {
            Portrait::Tb321fu
        } else if eq_ignore_ascii_case_spec(model@, "TB322FC"@) {
            Portrait::Tb322fc
        } else if eq_ignore_ascii_case_spec(model@, "TB323FU"@) {
            Portrait::Tb323fu
        } else if eq_ignore_ascii_case_spec(model@, "TB520FU"@) {
            Portrait::Tb520fu
        } else if eq_ignore_ascii_case_spec(model@, "TB710FU"@) {
            Portrait::Tb710fu
        } else {
            Portrait::GenericTablet
        }),
{
    if eq_ignore_ascii_case(model, "TB320FC") {
        Portrait::Tb320fc
    } else if eq_ignore_ascii_case(model, "TB321FU") {
        Portrait::Tb321fu
    } else if eq_ignore_ascii_case(model, "TB322FC") {
        Portrait::Tb322fc
    } else if eq_ignore_ascii_case(model, "TB323FU") {
        Portrait::Tb323fu
    } else if eq_ignore_ascii_case(model, "TB520FU") {
        Portrait::Tb520fu
    } else if eq_ignore_ascii_case(model, "TB710FU") {
        Portrait::Tb710fu
    } else {
        Portrait::GenericTablet
    }
}

/// State of one step in a wizard's step bar.
#[derive(Debug, Clone, Copy, PartialEq, Eq, Structural)]
pub enum StepMarker {
    Done,
    Active,
    Upcoming,
}

pub fn step_marker(index: usize, current: usize) -> (r: StepMarker)
    ensures
        r == (if index < current {
            StepMarker::Done
        } else if index == current {
            StepMarker::Active
        } else {
            StepMarker::Upcoming
        }),
{
    if index < current {
        StepMarker::Done
    } else if index == current {
        StepMarker::Active
    } else {
        StepMarker::Upcoming
    }
}

/// Text in a step's dot: a check mark once done, else its 1-based number.
pub fn step_dot_label(index: usize, current: usize) -> (r: String)
    requires
        index < usize::MAX,
    ensures
        r@ == (if index < current {
            "\u{2713}"@
        } else {
            decimal_spec((index + 1) as nat)
        }),
{
    if index < current {
        String::from_str("\u{2713}")
    } else {
        let mut r = String::new();
        push_decimal(&mut r, (index + 1) as u64);
        r
    }
}

/// The connector drawn before step `index` (> 0) shows as completed once
/// that step is reached.
pub fn step_connector_completed(index: usize, current: usize) -> (r: bool)
    ensures
        r == (index <= current),
{
    index <= current
}

/// Driver problem reported for the host.
#[derive(Debug, Clone, Copy, PartialEq, Eq, Structural)]
pub enum DriverIssue {
    UdevRulesMissing,
    UdevRulesStale,
    UdevRulesNoPermission,
    KernelDriverMissing,
    KernelDriverUnsupported,
    /// The Windows driver (or any other state) is missing.
    DriverMissing,
}

/// What the driver warning banner shows and allows.
#[derive(Debug, Clone, Copy, PartialEq, Eq, Structural)]
pub struct DriverBanner {
    /// The install needs the network (a GitHub download).
    pub needs_network: bool,
    /// An install button is shown at all.
    pub install_shown: bool,
    /// The install button can be pressed.
    pub install_enabled: bool,
    /// The button carries the "needs internet" hint.
    pub offline_hint: bool,
}

/// Udev-rule installs are local; kernel-driver and Windows driver installs
/// download; an unsupported kernel driver offers no install. Known to be
/// offline, a download install is disabled with a hint; any install is
/// disabled while one is running.
pub fn driver_banner(issue: Option<DriverIssue>, online: Option<bool>, installing: bool) -> (r: DriverBanner)
    ensures
        ({
            let (needs_network, can_install) = match issue {
                Some(DriverIssue::UdevRulesMissing) | Some(DriverIssue::UdevRulesStale) | Some(
                    DriverIssue::UdevRulesNoPermission,
                ) => (false, true),
                Some(DriverIssue::KernelDriverUnsupported) => (false, false),
                _ => (true, true),
            };
            let offline = needs_network && online == Some(false);
            r == (DriverBanner {
                needs_network,
                install_shown: can_install,
                install_enabled: can_install && !installing && !offline,
                offline_hint: can_install && offline,
            })
        }),
{
    let (needs_network, can_install) = match issue {
        Some(DriverIssue::UdevRulesMissing) | Some(DriverIssue::UdevRulesStale) | Some(
            DriverIssue::UdevRulesNoPermission,
        ) => (false, true),
        Some(DriverIssue::KernelDriverUnsupported) => (false, false),
        _ => (true, true),
    };
    let known_offline = match online {
        Some(false) => true,
        _ => false,
    };
    let offline = needs_network && known_offline;
    DriverBanner {
        needs_network,
        install_shown: can_install,
        install_enabled: can_install && !installing && !offline,
        offline_hint: can_install && offline,
    }
}

pub open spec fn is_digit(c: char) -> bool {
    48 <= (c as u32) <= 57
}

/// Decimal value of a run of ASCII digits.
pub open spec fn digits_value(s: Seq<char>) -> nat
    decreases s.len(),
{
    if s.len() == 0 {
        0
    } else {
        digits_value(s.drop_last()) * 10 + ((s.last() as u32) - 48) as nat
    }
}

/// The rollback-index (UNIX timestamp) field of the ARB popup: exactly ten
/// characters that read as a `u64` — ten digits, or `+` and nine digits.
pub open spec fn arb_index_digits(buf: Seq<char>) -> Option<Seq<char>> {
    if buf.len() != 10 {
        None
    } else if forall|i: int| 0 <= i < 10 ==> #[trigger] is_digit(buf[i]) {
        Some(buf)
    } else if buf[0] == '+' && forall|i: int| 1 <= i < 10 ==> #[trigger] is_digit(buf[i]) {
        Some(buf.subrange(1, 10))
    } else {
        None
    }
}

/// Largest value of `n` decimal digits.
pub open spec fn all_nines(n: nat) -> nat
    decreases n,
{
    if n == 0 {
        0
    } else {
        all_nines((n - 1) as nat) * 10 + 9
    }
}

proof fn lemma_all_nines_monotonic(m: nat, n: nat)
    requires
        m <= n,
    ensures
        all_nines(m) <= all_nines(n),
    decreases n,
{
    if m < n {
        lemma_all_nines_monotonic(m, (n - 1) as nat);
    }
}

/// The value the ARB popup accepts (`OK` is enabled only then): the field
/// holds exactly ten characters that read as a `u64`.
pub fn parse_arb_index(buf: &str) -> (r: Option<u64>)
    ensures
        r == (match arb_index_digits(buf@) {
            Some(d) => Some(digits_value(d) as u64),
            None => None,
        }),
{
    let c = chars_of(buf);
    if c.len() != 10 {
        return None;
    }
    let start: usize = if c[0] == '+' {
        1
    } else {
        0
    };
    let ghost d = c@.subrange(start as int, 10);
    let mut v: u64 = 0;
    let mut i: usize = start;
    while i < 10
        invariant
            c@ == buf@,
            c.len() == 10,
            start <= 1,
            start <= i <= 10,
            d == c@.subrange(start as int, 10),
            forall|k: int| start <= k < i ==> #[trigger] is_digit(buf@[k]),
            (start == 1) == (buf@[0] == '+'),
            v == digits_value(c@.subrange(start as int, i as int)),
            v <= all_nines((i - start) as nat),
        decreases 10 - i,
    {
        let x = c[i] as u32;
        if !(48 <= x && x <= 57) {
            proof {
                assert(!is_digit(buf@[i as int]));
                assert(!is_digit('+'));
                if start == 1 {
                    assert(!is_digit(buf@[0]));
                }
            }
            return None;
        }
        proof {
            assert(c@.subrange(start as int, i + 1).drop_last() =~= c@.subrange(
                start as int,
                i as int,
            ));
            lemma_all_nines_monotonic((i - start) as nat, 10);
            assert(all_nines(10) == 9999999999) by {
                reveal_with_fuel(all_nines, 11);
            }
        }
        v = v * 10 + ((x - 48) as u64);
        i += 1;
    }
    proof {
        assert(!is_digit('+'));
        if start == 1 {
            assert(!is_digit(buf@[0]));
        } else {
            assert(c@.subrange(0, 10) =~= buf@);
        }
    }
    Some(v)
}

/// The dashboard's firmware entry opens the OTA popup only when a firmware
/// version is shown.
pub fn ota_popup_enabled(device_firmware: &str) -> (r: bool)
    ensures
        r == (device_firmware@.len() > 0),
{
    device_firmware.unicode_len() > 0
}

/// The device portrait opens the device-info popup only when the device
/// card is shown (a model is known) and a serial number is known.
pub fn device_info_popup_enabled(device_model: &str, device_serial: &str) -> (r: bool)
    ensures
        r == (device_model@.len() > 0 && device_serial@.len() > 0),
{
    device_model.unicode_len() > 0 && device_serial.unicode_len() > 0
}

/// Eyebrow of the execution card: `None` without steps, else the current
/// step's index clamped to the last step, and the 1-based number shown
/// ("step n of total").
pub fn exec_card_step(current: usize, step_count: usize) -> (r: Option<(usize, usize)>)
    ensures
        step_count == 0 ==> r is None,
        step_count > 0 ==> r == Some(
            (
                (if current < step_count - 1 {
                    current
                } else {
                    (step_count - 1) as usize
                }),
                (if current < step_count - 1 {
                    current + 1
                } else {
                    step_count as int
                }) as usize,
            ),
        ),
{
    if step_count == 0 {
        return None;
    }
    let idx = if current < step_count - 1 {
        current
    } else {
        step_count - 1
    };
    Some((idx, idx + 1))
}

} // verus!
