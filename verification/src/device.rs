//! Connection modes of the tablet and the reboot routes between them.

use vstd::prelude::*;
use crate::text::{str_eq};

verus! {

/// How the device is currently connected.
#[derive(Debug, Clone, Copy, PartialEq, Eq, Structural)]
pub enum ConnectionStatus {
    /// No device found.
    Disconnected,
    Adb,
    AdbRecovery,
    AdbUnauthorized,
    AdbServerBlocking,
    Fastboot,
    Edl,
}

/// Where the user wants the device to reboot to.
#[derive(Debug, Clone, Copy, PartialEq, Eq, Structural)]
pub enum RebootTarget {
    System,
    Recovery,
    Bootloader,
    Edl,
}

/// The command that carries out a reboot request.
#[derive(Debug, Clone, Copy, PartialEq, Eq, Structural)]
pub enum RebootCommand {
    /// `adb reboot <arg>` with the argument of the target
    /// ([`adb_reboot_argument`]).
    Adb(RebootTarget),
    /// `fastboot reboot`.
    FastbootReboot,
    /// `fastboot reboot-bootloader`.
    FastbootRebootBootloader,
    /// Leave Fastboot for EDL through the shared EDL entry path.
    EnterEdlFromFastboot,
}

/// Why a reboot request is refused.
#[derive(Debug, Clone, Copy, PartialEq, Eq, Structural)]
pub enum RebootError {
    /// Fastboot has no command to reach recovery.
    FastbootRecoveryUnsupported,
    NoDevice,
    UsbDebuggingUnauthorized,
    AdbServerBlocking,
}

/// The `adb reboot` argument for a target (empty for system).
pub open spec fn adb_reboot_arg(target: RebootTarget) -> Seq<char> {
    match target {
        RebootTarget::System => ""@,
        RebootTarget::Recovery => "recovery"@,
        RebootTarget::Bootloader => "bootloader"@,
        RebootTarget::Edl => "edl"@,
    }
}

/// The `adb reboot` argument for a target.
pub fn adb_reboot_argument(target: RebootTarget) -> (r: &'static str)
    ensures
        r@ == adb_reboot_arg(target),
{
    match target {
        RebootTarget::System => "",
        RebootTarget::Recovery => "recovery",
        RebootTarget::Bootloader => "bootloader",
        RebootTarget::Edl => "edl",
    }
}

/// The command for a reboot request from a device that is not in EDL
/// (an EDL device reboots through its loader, see [`edl_loader_reboot`]).
pub fn reboot_command(conn: ConnectionStatus, target: RebootTarget) -> (r: Result<
    RebootCommand,
    RebootError,
>)
    requires
        conn != ConnectionStatus::Edl,
    ensures
        match conn {
            ConnectionStatus::Adb | ConnectionStatus::AdbRecovery => r == Ok::<
                RebootCommand,
                RebootError,
            >(RebootCommand::Adb(target)),
            ConnectionStatus::Fastboot => r == match target {
                RebootTarget::System => Ok(RebootCommand::FastbootReboot),
                RebootTarget::Bootloader => Ok(RebootCommand::FastbootRebootBootloader),
                RebootTarget::Edl => Ok(RebootCommand::EnterEdlFromFastboot),
                RebootTarget::Recovery => Err(RebootError::FastbootRecoveryUnsupported),
            },
            ConnectionStatus::Disconnected => r == Err::<RebootCommand, RebootError>(
                RebootError::NoDevice,
            ),
            ConnectionStatus::AdbUnauthorized => r == Err::<RebootCommand, RebootError>(
                RebootError::UsbDebuggingUnauthorized,
            ),
            ConnectionStatus::AdbServerBlocking => r == Err::<RebootCommand, RebootError>(
                RebootError::AdbServerBlocking,
            ),
            ConnectionStatus::Edl => false,
        },
{
    match conn {
        ConnectionStatus::Adb | ConnectionStatus::AdbRecovery => Ok(RebootCommand::Adb(target)),
        ConnectionStatus::Fastboot => match target {
            RebootTarget::System => Ok(RebootCommand::FastbootReboot),
            RebootTarget::Bootloader => Ok(RebootCommand::FastbootRebootBootloader),
            RebootTarget::Edl => Ok(RebootCommand::EnterEdlFromFastboot),
            RebootTarget::Recovery => Err(RebootError::FastbootRecoveryUnsupported),
        },
        ConnectionStatus::Disconnected => Err(RebootError::NoDevice),
        ConnectionStatus::AdbUnauthorized => Err(RebootError::UsbDebuggingUnauthorized),
        ConnectionStatus::AdbServerBlocking => Err(RebootError::AdbServerBlocking),
        ConnectionStatus::Edl => Err(RebootError::NoDevice),
    }
}

/// How an EDL session is closed for a reboot request.
#[derive(Debug, Clone, Copy, PartialEq, Eq, Structural)]
pub enum EdlReset {
    /// Reset the device so it boots to system.
    ToSystem,
    /// Reset back into EDL.
    ToEdl,
}

/// Reboot of a device in EDL through its loader: only system and EDL are
/// reachable from there.
pub fn edl_loader_reboot(target: RebootTarget) -> (r: Option<EdlReset>)
    ensures
        r == (match target {
            RebootTarget::System => Some(EdlReset::ToSystem),
            RebootTarget::Edl => Some(EdlReset::ToEdl),
            _ => None,
        }),
{
    match target {
        RebootTarget::System => Some(EdlReset::ToSystem),
        RebootTarget::Edl => Some(EdlReset::ToEdl),
        _ => None,
    }
}

/// `adb reboot edl` is only tried from the `device` and `recovery` ADB
/// states; any other state (or none) falls back to waiting for a manual
/// EDL entry.
pub fn adb_state_allows_edl_reboot(state: Option<&str>) -> (r: bool)
    ensures
        r == (match state {
            Some(s) => s@ == "device"@ || s@ == "recovery"@,
            None => false,
        }),
{
    match state {
        Some(s) => str_eq(s, "device") || str_eq(s, "recovery"),
        None => false,
    }
}

/// How a device is brought into EDL from its current mode.
#[derive(Debug, Clone, Copy, PartialEq, Eq, Structural)]
pub enum EdlEntryAction {
    /// Already in EDL.
    AlreadyEdl,
    /// `adb reboot edl`.
    AdbReboot,
    /// Reboot Fastboot to system, wait for ADB, then `adb reboot edl`.
    FastbootRebootThenAdb,
    /// Ask the user to enter EDL by hand and wait for the port.
    ManualWait,
}

pub fn edl_entry_action(conn: ConnectionStatus) -> (r: EdlEntryAction)
    ensures
        r == (match conn {
            ConnectionStatus::Edl => EdlEntryAction::AlreadyEdl,
            ConnectionStatus::Adb | ConnectionStatus::AdbRecovery => EdlEntryAction::AdbReboot,
            ConnectionStatus::Fastboot => EdlEntryAction::FastbootRebootThenAdb,
            _ => EdlEntryAction::ManualWait,
        }),
{
    match conn {
        ConnectionStatus::Edl => EdlEntryAction::AlreadyEdl,
        ConnectionStatus::Adb | ConnectionStatus::AdbRecovery => EdlEntryAction::AdbReboot,
        ConnectionStatus::Fastboot => EdlEntryAction::FastbootRebootThenAdb,
        _ => EdlEntryAction::ManualWait,
    }
}

/// The device is reachable over ADB (normal or recovery).
#[verifier::allow_in_spec]
pub fn is_adb_connected(conn: ConnectionStatus) -> bool
    returns
        (conn == ConnectionStatus::Adb || conn == ConnectionStatus::AdbRecovery),

{
    conn == ConnectionStatus::Adb || conn == ConnectionStatus::AdbRecovery
}

/// When the Fastboot probe of a flash fails on an ADB-connected device,
/// bridge it to the bootloader (`adb reboot bootloader`) and probe again.
pub fn bridge_adb_to_bootloader(fastboot_probe_ok: bool, conn: ConnectionStatus) -> (r: bool)
    ensures
        r == (!fastboot_probe_ok && (conn == ConnectionStatus::Adb || conn
            == ConnectionStatus::AdbRecovery)),
{
    !fastboot_probe_ok && is_adb_connected(conn)
}

} // verus!
