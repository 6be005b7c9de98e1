//! The request dispatcher: the closed set of command codes, their wire
//! values, their bands, and the acceptance check against the daemon's
//! current phase.
//!
//! Commands fall into three ordered bands. Session-lifecycle commands are
//! accepted at any time; privileged-action commands only once the daemon
//! has finished its early boot work; each boot-stage command only during
//! the boot phase that expects it. An unknown or out-of-band code closes
//! the connection without any response, so a probing client learns
//! nothing.

use vstd::prelude::*;

verus! {

/// The closed enumeration of dispatchable commands. Wire values are
/// stable across restarts; two non-dispatchable sentinel values separate
/// the three bands on the wire (see [`code_wire`]).
#[derive(Clone, Copy, Debug, PartialEq, Eq, Structural)]
pub enum RequestCode {
    StartDaemon,
    CheckVersion,
    CheckVersionCode,
    StopDaemon,
    Superuser,
    ZygoteRestart,
    Denylist,
    SqliteCmd,
    RemoveModules,
    Zygisk,
    PostFsData,
    LateStart,
    BootComplete,
}

/// The three ordered command bands.
#[derive(Clone, Copy, Debug, PartialEq, Eq, Structural)]
pub enum Band {
    Session,
    Privileged,
    BootStage,
}

/// The boot phase the daemon is in: which boot-stage command it expects
/// next, or that boot is over.
#[derive(Clone, Copy, Debug, PartialEq, Eq, Structural)]
pub enum BootPhase {
    AwaitPostFsData,
    AwaitLateStart,
    AwaitBootComplete,
    BootDone,
}

/// The dispatcher-visible daemon state: whether privileged-action
/// commands are being served yet, and the current boot phase.
#[derive(Clone, Copy, Debug, PartialEq, Eq, Structural)]
pub struct DaemonPhase {
    pub ready: bool,
    pub boot: BootPhase,
}

/// The band a command belongs to.
pub open spec fn spec_band_of(c: RequestCode) -> Band {
    match c {
        RequestCode::StartDaemon => Band::Session,
        RequestCode::CheckVersion => Band::Session,
        RequestCode::CheckVersionCode => Band::Session,
        RequestCode::StopDaemon => Band::Session,
        RequestCode::Superuser => Band::Privileged,
        RequestCode::ZygoteRestart => Band::Privileged,
        RequestCode::Denylist => Band::Privileged,
        RequestCode::SqliteCmd => Band::Privileged,
        RequestCode::RemoveModules => Band::Privileged,
        RequestCode::Zygisk => Band::Privileged,
        RequestCode::PostFsData => Band::BootStage,
        RequestCode::LateStart => Band::BootStage,
        RequestCode::BootComplete => Band::BootStage,
    }
}

/// The stable wire value of a command. The values 4 and 11 are the two
/// band-separating sentinels and 15 the end marker; none of the three is
/// ever dispatched.
pub open spec fn spec_code_wire(c: RequestCode) -> i32 {
    match c {
        RequestCode::StartDaemon => 0,
        RequestCode::CheckVersion => 1,
        RequestCode::CheckVersionCode => 2,
        RequestCode::StopDaemon => 3,
        RequestCode::Superuser => 5,
        RequestCode::ZygoteRestart => 6,
        RequestCode::Denylist => 7,
        RequestCode::SqliteCmd => 8,
        RequestCode::RemoveModules => 9,
        RequestCode::Zygisk => 10,
        RequestCode::PostFsData => 12,
        RequestCode::LateStart => 13,
        RequestCode::BootComplete => 14,
    }
}

/// The command a wire value names, if any.
pub open spec fn spec_wire_code(w: i32) -> Option<RequestCode> {
    if w == 0 {
        Some(RequestCode::StartDaemon)
    } else if w == 1 {
        Some(RequestCode::CheckVersion)
    } else if w == 2 {
        Some(RequestCode::CheckVersionCode)
    } else if w == 3 {
        Some(RequestCode::StopDaemon)
    } else if w == 5 {
        Some(RequestCode::Superuser)
    } else if w == 6 {
        Some(RequestCode::ZygoteRestart)
    } else if w == 7 {
        Some(RequestCode::Denylist)
    } else if w == 8 {
        Some(RequestCode::SqliteCmd)
    } else if w == 9 {
        Some(RequestCode::RemoveModules)
    } else if w == 10 {
        Some(RequestCode::Zygisk)
    } else if w == 12 {
        Some(RequestCode::PostFsData)
    } else if w == 13 {
        Some(RequestCode::LateStart)
    } else if w == 14 {
        Some(RequestCode::BootComplete)
    } else {
        None
    }
}

/// Whether the daemon's current phase accepts a command of this band.
pub open spec fn spec_accepts(phase: DaemonPhase, c: RequestCode) -> bool {
    match spec_band_of(c) {
        Band::Session => true,
        Band::Privileged => phase.ready,
        Band::BootStage => match c {
            RequestCode::PostFsData => phase.boot == BootPhase::AwaitPostFsData,
            RequestCode::LateStart => phase.boot == BootPhase::AwaitLateStart,
            _ => phase.boot == BootPhase::AwaitBootComplete,
        },
    }
}

/// The dispatch decision for a raw wire value: the handler to route to,
/// or `None`, which closes the connection without a response.
pub open spec fn spec_dispatch(w: i32, phase: DaemonPhase) -> Option<RequestCode> {
    match spec_wire_code(w) {
        Some(c) => if spec_accepts(phase, c) {
            Some(c)
        } else {
            None
        },
        None => None,
    }
}

/// The band a command belongs to.
pub fn band_of(c: RequestCode) -> (r: Band)
    ensures
        r == spec_band_of(c),
{
    match c {
        RequestCode::StartDaemon => Band::Session,
        RequestCode::CheckVersion => Band::Session,
        RequestCode::CheckVersionCode => Band::Session,
        RequestCode::StopDaemon => Band::Session,
        RequestCode::Superuser => Band::Privileged,
        RequestCode::ZygoteRestart => Band::Privileged,
        RequestCode::Denylist => Band::Privileged,
        RequestCode::SqliteCmd => Band::Privileged,
        RequestCode::RemoveModules => Band::Privileged,
        RequestCode::Zygisk => Band::Privileged,
        RequestCode::PostFsData => Band::BootStage,
        RequestCode::LateStart => Band::BootStage,
        RequestCode::BootComplete => Band::BootStage,
    }
}

/// The stable wire value of a command.
pub fn code_wire(c: RequestCode) -> (r: i32)
    ensures
        r == spec_code_wire(c),
{
    match c {
        RequestCode::StartDaemon => 0,
        RequestCode::CheckVersion => 1,
        RequestCode::CheckVersionCode => 2,
        RequestCode::StopDaemon => 3,
        RequestCode::Superuser => 5,
        RequestCode::ZygoteRestart => 6,
        RequestCode::Denylist => 7,
        RequestCode::SqliteCmd => 8,
        RequestCode::RemoveModules => 9,
        RequestCode::Zygisk => 10,
        RequestCode::PostFsData => 12,
        RequestCode::LateStart => 13,
        RequestCode::BootComplete => 14,
    }
}

/// The command a wire value names, if any.
pub fn wire_code(w: i32) -> (r: Option<RequestCode>)
    ensures
        r == spec_wire_code(w),
{
    if w == 0 {
        Some(RequestCode::StartDaemon)
    } else if w == 1 {
        Some(RequestCode::CheckVersion)
    } else if w == 2 {
        Some(RequestCode::CheckVersionCode)
    } else if w == 3 {
        Some(RequestCode::StopDaemon)
    } else if w == 5 {
        Some(RequestCode::Superuser)
    } else if w == 6 {
        Some(RequestCode::ZygoteRestart)
    } else if w == 7 {
        Some(RequestCode::Denylist)
    } else if w == 8 {
        Some(RequestCode::SqliteCmd)
    } else if w == 9 {
        Some(RequestCode::RemoveModules)
    } else if w == 10 {
        Some(RequestCode::Zygisk)
    } else if w == 12 {
        Some(RequestCode::PostFsData)
    } else if w == 13 {
        Some(RequestCode::LateStart)
    } else if w == 14 {
        Some(RequestCode::BootComplete)
    } else {
        None
    }
}

/// Route a raw wire value in the daemon's current phase.
pub fn dispatch(w: i32, phase: DaemonPhase) -> (r: Option<RequestCode>)
    ensures
        r == spec_dispatch(w, phase),
{
    match wire_code(w) {
        Some(c) => {
            let ok = match band_of(c) {
                Band::Session => true,
                Band::Privileged => phase.ready,
                Band::BootStage => match c {
                    RequestCode::PostFsData => matches!(phase.boot, BootPhase::AwaitPostFsData),
                    RequestCode::LateStart => matches!(phase.boot, BootPhase::AwaitLateStart),
                    _ => matches!(phase.boot, BootPhase::AwaitBootComplete),
                },
            };
            if ok {
                Some(c)
            } else {
                None
            }
        },
        None => None,
    }
}

/// The phase after a boot-stage command has been handled: the expected
/// stage advances in order, and finishing the first stage also starts
/// serving the privileged band.
pub open spec fn spec_after_boot_command(phase: DaemonPhase, c: RequestCode) -> DaemonPhase {
    match c {
        RequestCode::PostFsData => DaemonPhase { ready: true, boot: BootPhase::AwaitLateStart },
        RequestCode::LateStart => DaemonPhase { ready: phase.ready, boot: BootPhase::AwaitBootComplete },
        _ => DaemonPhase { ready: phase.ready, boot: BootPhase::BootDone },
    }
}

/// Advance the daemon's phase after handling a boot-stage command.
pub fn after_boot_command(phase: DaemonPhase, c: RequestCode) -> (r: DaemonPhase)
    requires
        spec_band_of(c) == Band::BootStage,
    ensures
        r == spec_after_boot_command(phase, c),
{
    match c {
        RequestCode::PostFsData => DaemonPhase { ready: true, boot: BootPhase::AwaitLateStart },
        RequestCode::LateStart => DaemonPhase {
            ready: phase.ready,
            boot: BootPhase::AwaitBootComplete,
        },
        _ => DaemonPhase { ready: phase.ready, boot: BootPhase::BootDone },
    }
}

/// Wire stability: every command survives the trip through its wire
/// value, so codes are usable as wire constants across restarts.
pub proof fn lemma_code_wire_round_trip(c: RequestCode)
    ensures
        spec_wire_code(spec_code_wire(c)) == Some(c),
{
}

/// The bands are the wire's three contiguous ranges: the values below
/// the first sentinel are the session band, those between the sentinels
/// the privileged band, and those above the second sentinel the
/// boot-stage band.
pub proof fn lemma_bands_are_wire_ranges(c: RequestCode)
    ensures
        spec_band_of(c) == Band::Session <==> 0 <= spec_code_wire(c) <= 3,
        spec_band_of(c) == Band::Privileged <==> 5 <= spec_code_wire(c) <= 10,
        spec_band_of(c) == Band::BootStage <==> 12 <= spec_code_wire(c) <= 14,
{
}

/// The two sentinel values separating the bands, and the end marker, are
/// never dispatched, in any phase.
pub proof fn lemma_sentinels_never_dispatched(phase: DaemonPhase)
    ensures
        spec_dispatch(4, phase) is None,
        spec_dispatch(11, phase) is None,
        spec_dispatch(15, phase) is None,
{
}

} // verus!
