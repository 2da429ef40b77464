//! Partition and physical-range transfers over EDL: which dump failures
//! are critical, the Firehose geometry of a GPT row, and what each row of
//! the Flash Partitions wizard asks for.

use vstd::prelude::*;
use vstd::string::*;
use crate::text::{decimal_spec, push_decimal};
use crate::text::{chars_of, eq_ignore_ascii_case, eq_ignore_ascii_case_spec, seq_eq_ignore_ascii_case};

verus! {

/// `label` begins with `prefix`, ASCII case ignored.
pub open spec fn starts_with_ignore_ascii_case_spec(label: Seq<char>, prefix: Seq<char>) -> bool {
    prefix.len() <= label.len() && eq_ignore_ascii_case_spec(label.subrange(0, prefix.len() as int), prefix)
}

pub fn starts_with_ignore_ascii_case(label: &str, prefix: &str) -> (r: bool)
    ensures
        r == starts_with_ignore_ascii_case_spec(label@, prefix@),
{
    let l = chars_of(label);
    let p = chars_of(prefix);
    if p.len() > l.len() {
        return false;
    }
    seq_eq_ignore_ascii_case(&l, 0, p.len(), &p)
}

/// `label` is the partition `base` itself or one of its slot-suffixed
/// forms (`<base>_...`), ASCII case ignored.
pub open spec fn names_partition(label: Seq<char>, base: Seq<char>) -> bool {
    eq_ignore_ascii_case_spec(label, base) || starts_with_ignore_ascii_case_spec(label, base + "_"@)
}

/// A dump failure of this label is critical: `devinfo` and `persist` (in
/// any case, possibly slot-suffixed) carry region and board state that a
/// later rescue cannot rebuild.
pub fn is_critical_dump_label(label: &str) -> (r: bool)
    ensures
        r == (names_partition(label@, "devinfo"@) || names_partition(label@, "persist"@)),
{
    proof {
        reveal_strlit("devinfo");
        reveal_strlit("devinfo_");
        reveal_strlit("persist");
        reveal_strlit("persist_");
        reveal_strlit("_");
        assert("devinfo"@ + "_"@ =~= "devinfo_"@);
        assert("persist"@ + "_"@ =~= "persist_"@);
    }
    eq_ignore_ascii_case(label, "devinfo") || starts_with_ignore_ascii_case(label, "devinfo_")
        || eq_ignore_ascii_case(label, "persist") || starts_with_ignore_ascii_case(label, "persist_")
}

/// Seconds to wait after large dumps before the next EDL operation.
pub const EDL_POST_DUMP_STABILIZE_SECS: u64 = 15;

/// The Firehose start sector (`u32`) and sector count (`usize`) of a GPT
/// row, or `None` when either is out of range (never truncated).
pub fn dump_geometry(start_sector: u64, num_sectors: u64) -> (r: Option<(u32, usize)>)
    ensures
        r == (if start_sector <= u32::MAX && num_sectors <= usize::MAX {
            Some((start_sector as u32, num_sectors as usize))
        } else {
            None
        }),
{
    if start_sector <= u32::MAX as u64 && num_sectors <= usize::MAX as u64 {
        Some((start_sector as u32, num_sectors as usize))
    } else {
        None
    }
}

/// File a whole-LUN dump writes: `lun_<n>.img`.
pub fn lun_dump_file_name(lun: u8) -> (r: String)
    ensures
        r@ == "lun_"@ + decimal_spec(lun as nat) + ".img"@,
{
    let mut r = String::from_str("lun_");
    push_decimal(&mut r, lun as u64);
    r.append(".img");
    r
}

/// LUNs whose GPTs the partition wizards scan (0 to 5).
pub fn scanned_luns() -> (r: [u8; 6])
    ensures
        forall|i: int| 0 <= i < 6 ==> r@[i] == i,
{
    [0, 1, 2, 3, 4, 5]
}

/// What the user ticked for a row of the Flash Partitions wizard.
#[derive(Debug, Clone, Copy, PartialEq, Eq, Structural)]
pub enum FlashRowState {
    Unchecked,
    Flash,
    Erase,
}

/// What the exec pass does with one row.
#[derive(Debug, Clone, Copy, PartialEq, Eq, Structural)]
pub enum RowStep {
    /// Unchecked row.
    Ignore,
    /// Ticked for flashing but no image was picked: log and skip.
    SkipNoImage,
    /// The picked image does not exist: log and skip.
    SkipMissingImage,
    /// Write the picked image to the row's sectors.
    Flash,
    /// Erase the row's sectors.
    Erase,
}

/// Step for one row: `has_image` tells whether an image was picked and
/// `image_exists` whether that file exists.
pub fn flash_row_step(state: FlashRowState, has_image: bool, image_exists: bool) -> (r: RowStep)
    ensures
        r == (match state {
            FlashRowState::Unchecked => RowStep::Ignore,
            FlashRowState::Erase => RowStep::Erase,
            FlashRowState::Flash => if !has_image {
                RowStep::SkipNoImage
            } else if !image_exists {
                RowStep::SkipMissingImage
            } else {
                RowStep::Flash
            },
        }),
{
    match state {
        FlashRowState::Unchecked => RowStep::Ignore,
        FlashRowState::Erase => RowStep::Erase,
        FlashRowState::Flash => {
            if !has_image {
                RowStep::SkipNoImage
            } else if !image_exists {
                RowStep::SkipMissingImage
            } else {
                RowStep::Flash
            }
        },
    }
}

/// What the Flash Partitions pass does next.
#[derive(Debug, Clone, Copy, PartialEq, Eq, Structural)]
pub enum PartsNext {
    /// Handle row `i`.
    Row(usize),
    /// The write of row `i` failed: stop there, without a reset.
    StopFailed(usize),
    /// Every row was handled: reset the device (tolerantly) and finish.
    ResetAndFinish,
}

/// The first step of a pass over `count` rows.
pub open spec fn parts_first_spec(count: usize) -> PartsNext {
    if count == 0 {
        PartsNext::ResetAndFinish
    } else {
        PartsNext::Row(0)
    }
}

/// The step after row `i` of `count` was handled (`ok`: its write, if any,
/// succeeded, or it was skipped).
pub open spec fn parts_next_spec(i: usize, count: usize, ok: bool) -> PartsNext {
    if !ok {
        PartsNext::StopFailed(i)
    } else if i < count && count - i > 1 {
        PartsNext::Row((i + 1) as usize)
    } else {
        PartsNext::ResetAndFinish
    }
}

/// The first step of a Flash Partitions pass ([`parts_first_spec`]).
pub fn parts_first(count: usize) -> (r: PartsNext)
    ensures
        r == parts_first_spec(count),
{
    if count == 0 {
        PartsNext::ResetAndFinish
    } else {
        PartsNext::Row(0)
    }
}

/// The step after a row ([`parts_next_spec`]).
pub fn parts_next(i: usize, count: usize, ok: bool) -> (r: PartsNext)
    ensures
        r == parts_next_spec(i, count, ok),
{
    if !ok {
        PartsNext::StopFailed(i)
    } else if i < count && count - i > 1 {
        PartsNext::Row(i + 1)
    } else {
        PartsNext::ResetAndFinish
    }
}

/// Law: the pass handles the rows in order, one after the other; the first
/// failed write stops it with no reset and no later row; the device is
/// reset only after the last row.
pub proof fn lemma_parts_order(i: usize, count: usize, ok: bool)
    requires
        i < count,
    ensures
        parts_next_spec(i, count, ok) matches PartsNext::Row(j) ==> ok && j == i + 1 && j < count,
        !ok ==> parts_next_spec(i, count, ok) == PartsNext::StopFailed(i),
        parts_next_spec(i, count, ok) is ResetAndFinish ==> ok && i + 1 == count,
{
}

} // verus!
