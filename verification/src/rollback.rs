//! Anti-rollback decisions of the firmware flash: the device's committed
//! rollback floors, the effective bypass mode, and how each AVB location is
//! brought up to its floor.

use vstd::prelude::*;

verus! {

/// The larger of the values that parsed (`None` when neither did).
pub open spec fn max_parsed(a: Option<u64>, b: Option<u64>) -> Option<u64> {
    match (a, b) {
        (Some(x), Some(y)) => Some(if x >= y { x } else { y }),
        (Some(x), None) => Some(x),
        (None, Some(y)) => Some(y),
        (None, None) => None,
    }
}

/// Component-wise floors: each location's maximum over both slots, or
/// `None` when some location parsed on neither slot.
pub open spec fn rollback_floors_spec(boot: Seq<Option<u64>>, vbs: Seq<Option<u64>>) -> Option<(u64, u64)> {
    match (max_parsed(boot[0], boot[1]), max_parsed(vbs[0], vbs[1])) {
        (Some(b), Some(v)) => Some((b, v)),
        _ => None,
    }
}

fn max_of_slots(a: Option<u64>, b: Option<u64>) -> (r: Option<u64>)
    ensures
        r == max_parsed(a, b),
{
    match (a, b) {
        (Some(x), Some(y)) => Some(if x >= y { x } else { y }),
        (Some(x), None) => Some(x),
        (None, Some(y)) => Some(y),
        (None, None) => None,
    }
}

/// Component-wise device rollback floors from the per-slot `boot` and
/// `vbmeta_system` indices (`None` = that slot's image did not parse).
/// Each location's floor is its maximum across both slots; `None` when a
/// location parsed on neither slot.
pub fn rollback_floors(boot: [Option<u64>; 2], vbs: [Option<u64>; 2]) -> (r: Option<(u64, u64)>)
    ensures
        r == rollback_floors_spec(boot@, vbs@),
{
    let b = max_of_slots(boot[0], boot[1]);
    let v = max_of_slots(vbs[0], vbs[1]);
    match (b, v) {
        (Some(bf), Some(vf)) => Some((bf, vf)),
        _ => None,
    }
}

/// Law: the floors are taken per location. Each floor is at least every
/// index that parsed for its location and equals one of them, and the
/// floors exist exactly when each location parsed on some slot.
pub proof fn lemma_rollback_floors_componentwise(boot: Seq<Option<u64>>, vbs: Seq<Option<u64>>)
    requires
        boot.len() == 2,
        vbs.len() == 2,
    ensures
        rollback_floors_spec(boot, vbs) is Some <==> ((boot[0] is Some || boot[1] is Some) && (
        vbs[0] is Some || vbs[1] is Some)),
        rollback_floors_spec(boot, vbs) matches Some((b, v)) ==> {
            &&& (boot[0] matches Some(x) ==> x <= b)
            &&& (boot[1] matches Some(x) ==> x <= b)
            &&& (vbs[0] matches Some(x) ==> x <= v)
            &&& (vbs[1] matches Some(x) ==> x <= v)
            &&& (boot[0] == Some(b) || boot[1] == Some(b))
            &&& (vbs[0] == Some(v) || vbs[1] == Some(v))
        },
{
}


/// The rollback floors an EDL-start flash carries on with: none for a model
/// without rollback protection, else the floors read off both slots, which
/// must exist.
pub fn edl_start_floors(needs_floors: bool, floors: Option<(u64, u64)>) -> (r: Result<
    Option<(u64, u64)>,
    (),
>)
    ensures
        r == (if !needs_floors {
            Ok::<Option<(u64, u64)>, ()>(None)
        } else {
            match floors {
                Some(f) => Ok(Some(f)),
                None => Err(()),
            }
        }),
{
    if !needs_floors {
        return Ok(None);
    }
    match floors {
        Some(f) => Ok(Some(f)),
        None => Err(()),
    }
}

/// A/B slot.
#[derive(Debug, Clone, Copy, PartialEq, Eq, Structural)]
pub enum Slot {
    A,
    B,
}

/// The slot named by a `current-slot` value: `b` or `_b` (ASCII case
/// ignored) names slot B, anything else slot A.
pub fn slot_from_current_slot(value: &str) -> (r: Slot)
    ensures
        r == (if crate::text::eq_ignore_ascii_case_spec(value@, "b"@)
            || crate::text::eq_ignore_ascii_case_spec(value@, "_b"@) {
            Slot::B
        } else {
            Slot::A
        }),
{
    if crate::text::eq_ignore_ascii_case(value, "b") || crate::text::eq_ignore_ascii_case(value, "_b") {
        Slot::B
    } else {
        Slot::A
    }
}

/// Why the device's active-slot identity cannot be read.
#[derive(Debug, Clone, Copy, PartialEq, Eq, Structural)]
pub enum DeviceVbmetaError {
    /// `vbmeta_system` parsed on neither slot (and no slot was known).
    NoVbmetaParsed,
    /// The known active slot's `vbmeta_system` did not parse.
    ActiveUnreadable,
    /// `boot` or `vbmeta_system` has no rollback index on either slot.
    FloorsUnreadable,
}

/// The active slot: Fastboot's when known; otherwise the slot whose
/// `vbmeta_system` parsed, or (both parsed) the one with the higher
/// rollback index, ties favouring A.
pub open spec fn active_slot_spec(known: Option<Slot>, vbs_a: Option<u64>, vbs_b: Option<u64>) -> Option<Slot> {
    match known {
        Some(s) => Some(s),
        None => match (vbs_a, vbs_b) {
            (Some(_), None) => Some(Slot::A),
            (None, Some(_)) => Some(Slot::B),
            (Some(a), Some(b)) => Some(if b > a { Slot::B } else { Slot::A }),
            (None, None) => None,
        },
    }
}

/// Active slot and component-wise floors of the device, from the rollback
/// indices of `vbmeta_system` (`None` = did not parse) and `boot` on slots
/// A and B.
pub fn device_vbmeta_identity(
    known_active: Option<Slot>,
    vbs: [Option<u64>; 2],
    boot: [Option<u64>; 2],
) -> (r: Result<(Slot, u64, u64), DeviceVbmetaError>)
    ensures
        r == (match active_slot_spec(known_active, vbs@[0], vbs@[1]) {
            None => Err(DeviceVbmetaError::NoVbmetaParsed),
            Some(s) => if (if s == Slot::A { vbs@[0] } else { vbs@[1] }) is None {
                Err(DeviceVbmetaError::ActiveUnreadable)
            } else {
                match rollback_floors_spec(boot@, vbs@) {
                    Some((b, v)) => Ok((s, b, v)),
                    None => Err(DeviceVbmetaError::FloorsUnreadable),
                }
            },
        }),
{
    let slot = match known_active {
        Some(s) => s,
        None => match (vbs[0], vbs[1]) {
            (Some(_), None) => Slot::A,
            (None, Some(_)) => Slot::B,
            (Some(a), Some(b)) => if b > a {
                Slot::B
            } else {
                Slot::A
            },
            (None, None) => {
                return Err(DeviceVbmetaError::NoVbmetaParsed);
            },
        },
    };
    let active_parsed = match slot {
        Slot::A => vbs[0].is_some(),
        Slot::B => vbs[1].is_some(),
    };
    if !active_parsed {
        return Err(DeviceVbmetaError::ActiveUnreadable);
    }
    match rollback_floors(boot, vbs) {
        Some((b, v)) => Ok((slot, b, v)),
        None => Err(DeviceVbmetaError::FloorsUnreadable),
    }
}

} // verus!
