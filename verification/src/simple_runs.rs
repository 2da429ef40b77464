//! Two straight device runs as step machines: unrooting (the stock boot and
//! vbmeta written back over EDL) and the simple full flash (the firmware's
//! rawprogram written verbatim). Each write comes only after every check
//! passed, and a failed step stops the run where it is.

use vstd::prelude::*;

verus! {

/// Why unrooting stops.
#[derive(Debug, Clone, Copy, PartialEq, Eq, Structural)]
pub enum UnrootError {
    BootImageMissing,
    VbmetaImageMissing,
    SlotUnresolved,
    LoaderMissing,
    BootLunMissing,
    VbmetaLunMissing,
    EdlTransitionFailed,
    SessionOpenFailed,
    BootFlashFailed,
    VbmetaFlashFailed,
    ResetFailed,
}

/// The checks made, in this order, before unrooting touches the device;
/// on success the LUNs of boot and vbmeta.
pub open spec fn unroot_preflight_spec(
    boot_exists: bool,
    vbmeta_exists: bool,
    slot_resolved: bool,
    loader_found: bool,
    boot_lun: Option<u8>,
    vbmeta_lun: Option<u8>,
) -> Result<(u8, u8), UnrootError> {
    if !boot_exists {
        Err(UnrootError::BootImageMissing)
    } else if !vbmeta_exists {
        Err(UnrootError::VbmetaImageMissing)
    } else if !slot_resolved {
        Err(UnrootError::SlotUnresolved)
    } else if !loader_found {
        Err(UnrootError::LoaderMissing)
    } else {
        match (boot_lun, vbmeta_lun) {
            (None, _) => Err(UnrootError::BootLunMissing),
            (_, None) => Err(UnrootError::VbmetaLunMissing),
            (Some(b), Some(v)) => Ok((b, v)),
        }
    }
}

/// A device step of unrooting.
#[derive(Debug, Clone, Copy, PartialEq, Eq, Structural)]
pub enum UnrootStep {
    EnterEdl,
    OpenSession,
    FlashBoot,
    FlashVbmeta,
    Reset,
}

/// What unrooting does next.
#[derive(Debug, Clone, Copy, PartialEq, Eq, Structural)]
pub enum UnrootNext {
    Do(UnrootStep),
    Fail(UnrootError),
    Done,
}

/// The step after `step` finished (`ok`: it succeeded): the device is sent
/// to EDL, the session opened, boot then vbmeta written, and the device
/// reset; any failure stops the run there.
pub open spec fn unroot_next_spec(step: UnrootStep, ok: bool) -> UnrootNext {
    match step {
        UnrootStep::EnterEdl => if ok {
            UnrootNext::Do(UnrootStep::OpenSession)
        } else {
            UnrootNext::Fail(UnrootError::EdlTransitionFailed)
        },
        UnrootStep::OpenSession => if ok {
            UnrootNext::Do(UnrootStep::FlashBoot)
        } else {
            UnrootNext::Fail(UnrootError::SessionOpenFailed)
        },
        UnrootStep::FlashBoot => if ok {
            UnrootNext::Do(UnrootStep::FlashVbmeta)
        } else {
            UnrootNext::Fail(UnrootError::BootFlashFailed)
        },
        UnrootStep::FlashVbmeta => if ok {
            UnrootNext::Do(UnrootStep::Reset)
        } else {
            UnrootNext::Fail(UnrootError::VbmetaFlashFailed)
        },
        UnrootStep::Reset => if ok {
            UnrootNext::Done
        } else {
            UnrootNext::Fail(UnrootError::ResetFailed)
        },
    }
}

/// Position of a step in the unroot run.
pub open spec fn unroot_rank(step: UnrootStep) -> int {
    match step {
        UnrootStep::EnterEdl => 0,
        UnrootStep::OpenSession => 1,
        UnrootStep::FlashBoot => 2,
        UnrootStep::FlashVbmeta => 3,
        UnrootStep::Reset => 4,
    }
}

/// Law: unrooting only moves forward one step at a time, so vbmeta is
/// written only after boot was, and the reset only after both; a failure
/// ends the run.
pub proof fn lemma_unroot_order(step: UnrootStep, ok: bool)
    ensures
        unroot_next_spec(step, ok) matches UnrootNext::Do(next) ==> ok && unroot_rank(next)
            == unroot_rank(step) + 1,
        !ok ==> unroot_next_spec(step, ok) is Fail,
        unroot_next_spec(step, ok) is Done ==> step == UnrootStep::Reset && ok,
{
}

/// Why the simple flash stops.
#[derive(Debug, Clone, Copy, PartialEq, Eq, Structural)]
pub enum SimpleFlashError {
    FirmwareFolderMissing,
    DecryptFailed,
    DecompressFailed,
    LoaderMissing,
    XmlSelectionFailed,
    NoRawprogramXml,
    EdlTransitionFailed,
    SessionOpenFailed,
    FirmwareFailed,
    SetActiveFailed,
}

/// The checks made, in this order, before the simple flash touches the
/// device (`rawprogram_count`: `None` when the XML selection failed).
pub open spec fn simple_flash_preflight_spec(
    folder_exists: bool,
    decrypt_ok: bool,
    decompress_ok: bool,
    loader_found: bool,
    rawprogram_count: Option<usize>,
) -> Result<(), SimpleFlashError> {
    if !folder_exists {
        Err(SimpleFlashError::FirmwareFolderMissing)
    } else if !decrypt_ok {
        Err(SimpleFlashError::DecryptFailed)
    } else if !decompress_ok {
        Err(SimpleFlashError::DecompressFailed)
    } else if !loader_found {
        Err(SimpleFlashError::LoaderMissing)
    } else {
        match rawprogram_count {
            None => Err(SimpleFlashError::XmlSelectionFailed),
            Some(n) => if n == 0 {
                Err(SimpleFlashError::NoRawprogramXml)
            } else {
                Ok(())
            },
        }
    }
}

/// A device step of the simple flash.
#[derive(Debug, Clone, Copy, PartialEq, Eq, Structural)]
pub enum SimpleFlashStep {
    EnterEdl,
    OpenSession,
    /// Write every rawprogram / patch XML verbatim.
    Rawprogram,
    SetActiveSlotA,
    /// Reset the device, ignoring a failure.
    ResetTolerant,
}

/// What the simple flash does next.
#[derive(Debug, Clone, Copy, PartialEq, Eq, Structural)]
pub enum SimpleFlashNext {
    Do(SimpleFlashStep),
    Fail(SimpleFlashError),
    Done,
}

/// The step after `step` finished (`ok`: it succeeded). The tolerant reset
/// ends the run whatever its outcome.
pub open spec fn simple_flash_next_spec(step: SimpleFlashStep, ok: bool) -> SimpleFlashNext {
    match step {
        SimpleFlashStep::EnterEdl => if ok {
            SimpleFlashNext::Do(SimpleFlashStep::OpenSession)
        } else {
            SimpleFlashNext::Fail(SimpleFlashError::EdlTransitionFailed)
        },
        SimpleFlashStep::OpenSession => if ok {
            SimpleFlashNext::Do(SimpleFlashStep::Rawprogram)
        } else {
            SimpleFlashNext::Fail(SimpleFlashError::SessionOpenFailed)
        },
        SimpleFlashStep::Rawprogram => if ok {
            SimpleFlashNext::Do(SimpleFlashStep::SetActiveSlotA)
        } else {
            SimpleFlashNext::Fail(SimpleFlashError::FirmwareFailed)
        },
        SimpleFlashStep::SetActiveSlotA => if ok {
            SimpleFlashNext::Do(SimpleFlashStep::ResetTolerant)
        } else {
            SimpleFlashNext::Fail(SimpleFlashError::SetActiveFailed)
        },
        SimpleFlashStep::ResetTolerant => SimpleFlashNext::Done,
    }
}

/// Law: the simple flash resets the device only after the firmware was
/// written and slot A made active; a failed write or slot switch stops the
/// run without a reset.
pub proof fn lemma_simple_flash_reset_last(step: SimpleFlashStep, ok: bool)
    ensures
        simple_flash_next_spec(step, ok) == SimpleFlashNext::Do(SimpleFlashStep::ResetTolerant)
            <==> (step == SimpleFlashStep::SetActiveSlotA && ok),
        simple_flash_next_spec(step, ok) == SimpleFlashNext::Do(SimpleFlashStep::SetActiveSlotA)
            <==> (step == SimpleFlashStep::Rawprogram && ok),
        step != SimpleFlashStep::ResetTolerant && !ok ==> simple_flash_next_spec(step, ok) is Fail,
{
}

/// The unroot checks ([`unroot_preflight_spec`]).
pub fn unroot_preflight(
    boot_exists: bool,
    vbmeta_exists: bool,
    slot_resolved: bool,
    loader_found: bool,
    boot_lun: Option<u8>,
    vbmeta_lun: Option<u8>,
) -> (r: Result<(u8, u8), UnrootError>)
    ensures
        r == unroot_preflight_spec(
            boot_exists,
            vbmeta_exists,
            slot_resolved,
            loader_found,
            boot_lun,
            vbmeta_lun,
        ),
{
    if !boot_exists {
        Err(UnrootError::BootImageMissing)
    } else if !vbmeta_exists {
        Err(UnrootError::VbmetaImageMissing)
    } else if !slot_resolved {
        Err(UnrootError::SlotUnresolved)
    } else if !loader_found {
        Err(UnrootError::LoaderMissing)
    } else {
        match (boot_lun, vbmeta_lun) {
            (None, _) => Err(UnrootError::BootLunMissing),
            (_, None) => Err(UnrootError::VbmetaLunMissing),
            (Some(b), Some(v)) => Ok((b, v)),
        }
    }
}

/// The unroot step after `step` ([`unroot_next_spec`]).
pub fn unroot_next(step: UnrootStep, ok: bool) -> (r: UnrootNext)
    ensures
        r == unroot_next_spec(step, ok),
{
    match step {
        UnrootStep::EnterEdl => if ok {
            UnrootNext::Do(UnrootStep::OpenSession)
        } else {
            UnrootNext::Fail(UnrootError::EdlTransitionFailed)
        },
        UnrootStep::OpenSession => if ok {
            UnrootNext::Do(UnrootStep::FlashBoot)
        } else {
            UnrootNext::Fail(UnrootError::SessionOpenFailed)
        },
        UnrootStep::FlashBoot => if ok {
            UnrootNext::Do(UnrootStep::FlashVbmeta)
        } else {
            UnrootNext::Fail(UnrootError::BootFlashFailed)
        },
        UnrootStep::FlashVbmeta => if ok {
            UnrootNext::Do(UnrootStep::Reset)
        } else {
            UnrootNext::Fail(UnrootError::VbmetaFlashFailed)
        },
        UnrootStep::Reset => if ok {
            UnrootNext::Done
        } else {
            UnrootNext::Fail(UnrootError::ResetFailed)
        },
    }
}

/// The simple-flash checks ([`simple_flash_preflight_spec`]).
pub fn simple_flash_preflight(
    folder_exists: bool,
    decrypt_ok: bool,
    decompress_ok: bool,
    loader_found: bool,
    rawprogram_count: Option<usize>,
) -> (r: Result<(), SimpleFlashError>)
    ensures
        r == simple_flash_preflight_spec(
            folder_exists,
            decrypt_ok,
            decompress_ok,
            loader_found,
            rawprogram_count,
        ),
{
    if !folder_exists {
        Err(SimpleFlashError::FirmwareFolderMissing)
    } else if !decrypt_ok {
        Err(SimpleFlashError::DecryptFailed)
    } else if !decompress_ok {
        Err(SimpleFlashError::DecompressFailed)
    } else if !loader_found {
        Err(SimpleFlashError::LoaderMissing)
    } else {
        match rawprogram_count {
            None => Err(SimpleFlashError::XmlSelectionFailed),
            Some(n) => if n == 0 {
                Err(SimpleFlashError::NoRawprogramXml)
            } else {
                Ok(())
            },
        }
    }
}

/// The simple-flash step after `step` ([`simple_flash_next_spec`]).
pub fn simple_flash_next(step: SimpleFlashStep, ok: bool) -> (r: SimpleFlashNext)
    ensures
        r == simple_flash_next_spec(step, ok),
{
    match step {
        SimpleFlashStep::EnterEdl => if ok {
            SimpleFlashNext::Do(SimpleFlashStep::OpenSession)
        } else {
            SimpleFlashNext::Fail(SimpleFlashError::EdlTransitionFailed)
        },
        SimpleFlashStep::OpenSession => if ok {
            SimpleFlashNext::Do(SimpleFlashStep::Rawprogram)
        } else {
            SimpleFlashNext::Fail(SimpleFlashError::SessionOpenFailed)
        },
        SimpleFlashStep::Rawprogram => if ok {
            SimpleFlashNext::Do(SimpleFlashStep::SetActiveSlotA)
        } else {
            SimpleFlashNext::Fail(SimpleFlashError::FirmwareFailed)
        },
        SimpleFlashStep::SetActiveSlotA => if ok {
            SimpleFlashNext::Do(SimpleFlashStep::ResetTolerant)
        } else {
            SimpleFlashNext::Fail(SimpleFlashError::SetActiveFailed)
        },
        SimpleFlashStep::ResetTolerant => SimpleFlashNext::Done,
    }
}

} // verus!
