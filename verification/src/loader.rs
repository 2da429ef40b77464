//! File-name checks of firmware and loader files: extensions as
//! `Path::extension` reads them, and which names the flash takes up.

use vstd::prelude::*;
use vstd::string::*;
use crate::text::{
    chars_of, eq_ignore_ascii_case_spec, seq_eq_ignore_ascii_case, starts_with, starts_with_spec,
};

verus! {

/// `name` (a file name) has extension `ext`: the text after its last `.`,
/// when that `.` is not the first character (so `.zst` alone has none).
pub open spec fn has_extension(name: Seq<char>, ext: Seq<char>) -> bool {
    exists|d: int|
        #![trigger name[d]]
        0 < d < name.len() && name[d] == '.' && (forall|k: int| d < k < name.len() ==> name[k] != '.')
            && name.subrange(d + 1, name.len() as int) == ext
}

/// `name` has an extension equal to `ext` up to ASCII case.
pub open spec fn has_extension_ignore_ascii_case(name: Seq<char>, ext: Seq<char>) -> bool {
    exists|d: int|
        #![trigger name[d]]
        0 < d < name.len() && name[d] == '.' && (forall|k: int| d < k < name.len() ==> name[k] != '.')
            && eq_ignore_ascii_case_spec(name.subrange(d + 1, name.len() as int), ext)
}

/// Position of the last `.` of `name`, when it is not the first character.
fn extension_dot(name: &Vec<char>) -> (r: Option<usize>)
    ensures
        match r {
            Some(d) => 0 < d < name.len() && name@[d as int] == '.' && forall|k: int|
                d < k < name.len() ==> name@[k] != '.',
            None => forall|d: int|
                0 < d < name.len() && name@[d] == '.' ==> exists|k: int|
                    d < k < name.len() && name@[k] == '.',
        },
{
    let mut i: usize = name.len();
    while i > 0
        invariant
            i <= name.len(),
            forall|k: int| i <= k < name.len() ==> name@[k] != '.',
        decreases i,
    {
        i -= 1;
        if name[i] == '.' {
            if i == 0 {
                return None;
            }
            return Some(i);
        }
    }
    None
}

/// Whether the file name has extension `ext`, ASCII case ignored (as
/// `Path::extension` compared with `eq_ignore_ascii_case`).
pub fn extension_eq_ignore_ascii_case(name: &str, ext: &str) -> (r: bool)
    ensures
        r == has_extension_ignore_ascii_case(name@, ext@),
{
    let c = chars_of(name);
    let e = chars_of(ext);
    match extension_dot(&c) {
        Some(d) => {
            let r = seq_eq_ignore_ascii_case(&c, d + 1, c.len(), &e);
            proof {
                if has_extension_ignore_ascii_case(name@, ext@) {
                    let d2 = choose|d2: int|
                        #![trigger name@[d2]]
                        0 < d2 < name@.len() && name@[d2] == '.' && (forall|k: int|
                            d2 < k < name@.len() ==> name@[k] != '.') && eq_ignore_ascii_case_spec(
                            name@.subrange(d2 + 1, name@.len() as int),
                            ext@,
                        );
                    if d2 < d {
                        assert(name@[d as int] == '.');
                    }
                    if d2 > d {
                        assert(name@[d2] == '.');
                    }
                }
            }
            r
        },
        None => {
            proof {
                if has_extension_ignore_ascii_case(name@, ext@) {
                    let d2 = choose|d2: int|
                        #![trigger name@[d2]]
                        0 < d2 < name@.len() && name@[d2] == '.' && (forall|k: int|
                            d2 < k < name@.len() ==> name@[k] != '.') && eq_ignore_ascii_case_spec(
                            name@.subrange(d2 + 1, name@.len() as int),
                            ext@,
                        );
                    assert(name@[d2] == '.');
                }
            }
            false
        },
    }
}

/// A loader file the EDL session accepts by name: a single-blob loader
/// (`.melf`, `.mbn`, `.elf`) or an `.xml` manifest, extension in any ASCII
/// case, or the encrypted manifest (`is_encrypted_manifest`, decided by its
/// own name check).
pub fn loader_file_name_ok(name: &str, is_encrypted_manifest: bool) -> (r: bool)
    ensures
        r == (has_extension_ignore_ascii_case(name@, "melf"@) || has_extension_ignore_ascii_case(
            name@,
            "mbn"@,
        ) || has_extension_ignore_ascii_case(name@, "elf"@) || has_extension_ignore_ascii_case(
            name@,
            "xml"@,
        ) || is_encrypted_manifest),
{
    extension_eq_ignore_ascii_case(name, "melf") || extension_eq_ignore_ascii_case(name, "mbn")
        || extension_eq_ignore_ascii_case(name, "elf") || extension_eq_ignore_ascii_case(
        name,
        "xml",
    ) || is_encrypted_manifest
}

/// A rawprogram XML of the firmware folder: named `rawprogram*` with the
/// extension `xml` (exact case).
pub fn is_rawprogram_xml_name(name: &str) -> (r: bool)
    ensures
        r == (starts_with_spec(name@, "rawprogram"@) && has_extension(name@, "xml"@)),
{
    if !starts_with(name, "rawprogram") {
        return false;
    }
    let c = chars_of(name);
    let e = chars_of("xml");
    match extension_dot(&c) {
        Some(d) => {
            let r = same_chars_from(&c, d + 1, &e);
            proof {
                if has_extension(name@, "xml"@) {
                    let d2 = choose|d2: int|
                        #![trigger name@[d2]]
                        0 < d2 < name@.len() && name@[d2] == '.' && (forall|k: int|
                            d2 < k < name@.len() ==> name@[k] != '.') && name@.subrange(
                            d2 + 1,
                            name@.len() as int,
                        ) == "xml"@;
                    if d2 < d {
                        assert(name@[d as int] == '.');
                    }
                    if d2 > d {
                        assert(name@[d2] == '.');
                    }
                }
            }
            r
        },
        None => {
            proof {
                if has_extension(name@, "xml"@) {
                    let d2 = choose|d2: int|
                        #![trigger name@[d2]]
                        0 < d2 < name@.len() && name@[d2] == '.' && (forall|k: int|
                            d2 < k < name@.len() ==> name@[k] != '.') && name@.subrange(
                            d2 + 1,
                            name@.len() as int,
                        ) == "xml"@;
                    assert(name@[d2] == '.');
                }
            }
            false
        },
    }
}

/// A zstd-compressed image: extension `zst` in any ASCII case.
pub fn is_zst_file_name(name: &str) -> (r: bool)
    ensures
        r == has_extension_ignore_ascii_case(name@, "zst"@),
{
    extension_eq_ignore_ascii_case(name, "zst")
}

/// `name` without its extension (as `Path::with_extension("")`): the text
/// before the last `.` when that `.` is not the first character, else the
/// whole name. `super.img.zst` gives `super.img`.
pub open spec fn strip_extension_spec(name: Seq<char>) -> Seq<char> {
    if exists|d: int|
        #![trigger name[d]]
        0 < d < name.len() && name[d] == '.' && (forall|k: int| d < k < name.len() ==> name[k] != '.') {
        let d = choose|d: int|
            #![trigger name[d]]
            0 < d < name.len() && name[d] == '.' && (forall|k: int| d < k < name.len() ==> name[k] != '.');
        name.subrange(0, d)
    } else {
        name
    }
}

/// File name a `*.zst` image decompresses to: the name without its last
/// extension.
pub fn zst_target_name(name: &str) -> (r: String)
    ensures
        r@ == strip_extension_spec(name@),
{
    let c = chars_of(name);
    match extension_dot(&c) {
        Some(d) => {
            proof {
                let d2 = choose|d2: int|
                    #![trigger name@[d2]]
                    0 < d2 < name@.len() && name@[d2] == '.' && (forall|k: int|
                        d2 < k < name@.len() ==> name@[k] != '.');
                if d2 < d {
                    assert(name@[d as int] == '.');
                }
                if d2 > d {
                    assert(name@[d2] == '.');
                }
            }
            String::from_str(name.substring_char(0, d))
        },
        None => String::from_str(name),
    }
}

/// Name the decrypted form of a rawprogram `.x` pack is written under: the
/// stem of the `.x` file, with its own extension (if any) replaced by
/// `.xml`.
pub fn decrypted_xml_name(x_name: &str) -> (r: String)
    ensures
        r@ == strip_extension_spec(strip_extension_spec(x_name@)) + ".xml"@,
{
    let stem = zst_target_name(x_name);
    let mut r = zst_target_name(stem.as_str());
    r.append(".xml");
    r
}

/// Temporary sibling a decompression writes before renaming onto `target`,
/// so an interrupted run never leaves a complete-looking image.
pub fn zst_temp_name(target: &str) -> (r: String)
    ensures
        r@ == target@ + ".ltbox-zst-tmp"@,
{
    let mut r = String::from_str(target);
    r.append(".ltbox-zst-tmp");
    r
}

/// Depth below the firmware folder past which the `*.zst` scan stops (a
/// guard against symlink loops).
pub const ZST_SCAN_MAX_DEPTH: u32 = 8;

/// The `*.zst` scan looks into a directory found at `depth`.
pub fn zst_scan_descends(depth: u32) -> (r: bool)
    ensures
        r == (depth <= 8),
{
    depth <= ZST_SCAN_MAX_DEPTH
}

/// Bytes between two progress lines of a decompression (1 GiB).
pub const ZST_PROGRESS_STEP: u64 = 1073741824;

/// After `total` bytes were written, with the next progress line due at
/// `next_mark`: whether to log a progress line now, and the mark after it
/// (one step further when logged).
pub fn zst_progress_step(total: u64, next_mark: u64) -> (r: (bool, u64))
    requires
        next_mark <= u64::MAX - 1073741824,
    ensures
        r == (if total >= next_mark {
            (true, (next_mark + 1073741824) as u64)
        } else {
            (false, next_mark)
        }),
{
    if total >= next_mark {
        (true, next_mark + ZST_PROGRESS_STEP)
    } else {
        (false, next_mark)
    }
}

/// `x[from..]` is exactly `y`.
fn same_chars_from(x: &Vec<char>, from: usize, y: &Vec<char>) -> (r: bool)
    requires
        from <= x.len(),
    ensures
        r == (x@.subrange(from as int, x.len() as int) == y@),
{
    let ghost sub = x@.subrange(from as int, x.len() as int);
    if x.len() - from != y.len() {
        return false;
    }
    let mut i: usize = 0;
    while i < y.len()
        invariant
            from <= x.len(),
            x.len() - from == y.len(),
            sub == x@.subrange(from as int, x.len() as int),
            i <= y.len(),
            forall|j: int| 0 <= j < i ==> sub[j] == y@[j],
        decreases y.len() - i,
    {
        if x[from + i] != y[i] {
            assert(sub[i as int] != y@[i as int]);
            return false;
        }
        i += 1;
    }
    assert(sub =~= y@);
    true
}

} // verus!
