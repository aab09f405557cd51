use vstd::prelude::*;

use crate::error::{BlkIdError, BlkIdResult};

verus! {

/// Outcome of one probing call, as read off the native return code.
///
/// The native probing entry points report a tri-state result: `0` for a hit,
/// `1` for "chain exhausted" or "nothing found", and a negative value for a
/// genuine failure. Each probing call has its own reading of the non-negative
/// codes, captured by the translation functions below; callers never observe
/// the raw integers.
#[derive(Clone, Copy, Debug, PartialEq, Eq, Structural)]
pub enum ProbeState {
    /// A probing function found a signature.
    Success,
    /// All enabled probing functions have run; there is nothing further.
    Done,
    /// No signature was detected on the device.
    NothingDetected,
    /// More than one signature matched, so the result is ambiguous.
    Ambivalent,
}

/// What `blkid_do_probe`'s return code means: `0` is a hit, `1` means the
/// chains are exhausted, anything else is a failure carrying the OS error
/// code read right after the call.
pub open spec fn spec_probe_outcome(ret_code: i32, os_error_code: i32) -> BlkIdResult<ProbeState> {
    if ret_code == 0 {
        Ok(ProbeState::Success)
    } else if ret_code == 1 {
        Ok(ProbeState::Done)
    } else {
        Err(BlkIdError::Io(os_error_code))
    }
}

/// Translates the return code of a plain probing step.
pub fn probe_outcome(ret_code: i32, os_error_code: i32) -> (r: BlkIdResult<ProbeState>)
    ensures
        r == spec_probe_outcome(ret_code, os_error_code),
{
    match ret_code {
        0 => Ok(ProbeState::Success),
        1 => Ok(ProbeState::Done),
        _ => Err(BlkIdError::Io(os_error_code)),
    }
}

/// What `blkid_do_safeprobe`'s return code means: `0` is a hit, `1` means
/// nothing was detected, `-2` means the result is ambivalent, anything else
/// is a failure carrying the OS error code.
pub open spec fn spec_safe_probe_outcome(ret_code: i32, os_error_code: i32) -> BlkIdResult<
    ProbeState,
> {
    if ret_code == 0 {
        Ok(ProbeState::Success)
    } else if ret_code == 1 {
        Ok(ProbeState::NothingDetected)
    } else if ret_code == -2 {
        Ok(ProbeState::Ambivalent)
    } else {
        Err(BlkIdError::Io(os_error_code))
    }
}

/// Translates the return code of a collision-checking probe.
pub fn safe_probe_outcome(ret_code: i32, os_error_code: i32) -> (r: BlkIdResult<ProbeState>)
    ensures
        r == spec_safe_probe_outcome(ret_code, os_error_code),
{
    if ret_code == 0 {
        Ok(ProbeState::Success)
    } else if ret_code == 1 {
        Ok(ProbeState::NothingDetected)
    } else if ret_code == -2 {
        Ok(ProbeState::Ambivalent)
    } else {
        Err(BlkIdError::Io(os_error_code))
    }
}

/// What a full (non-collision-checking) probe's return code means: as the
/// safe probe, but an ambivalent result is never reported.
pub open spec fn spec_full_probe_outcome(ret_code: i32, os_error_code: i32) -> BlkIdResult<
    ProbeState,
> {
    if ret_code == 0 {
        Ok(ProbeState::Success)
    } else if ret_code == 1 {
        Ok(ProbeState::NothingDetected)
    } else {
        Err(BlkIdError::Io(os_error_code))
    }
}

/// Translates the return code of a full probe.
pub fn full_probe_outcome(ret_code: i32, os_error_code: i32) -> (r: BlkIdResult<ProbeState>)
    ensures
        r == spec_full_probe_outcome(ret_code, os_error_code),
{
    match ret_code {
        0 => Ok(ProbeState::Success),
        1 => Ok(ProbeState::NothingDetected),
        _ => Err(BlkIdError::Io(os_error_code)),
    }
}

/// What `blkid_do_wipe`'s return code means: `0` for a wiped signature, `1`
/// when there is nothing left to wipe, anything else is a failure.
pub open spec fn spec_wipe_outcome(ret_code: i32, os_error_code: i32) -> BlkIdResult<ProbeState> {
    if ret_code == 0 {
        Ok(ProbeState::Success)
    } else if ret_code == 1 {
        Ok(ProbeState::Done)
    } else {
        Err(BlkIdError::Io(os_error_code))
    }
}

/// Translates the return code of a signature wipe.
pub fn wipe_outcome(ret_code: i32, os_error_code: i32) -> (r: BlkIdResult<ProbeState>)
    ensures
        r == spec_wipe_outcome(ret_code, os_error_code),
{
    match ret_code {
        0 => Ok(ProbeState::Success),
        1 => Ok(ProbeState::Done),
        _ => Err(BlkIdError::Io(os_error_code)),
    }
}

/// What `blkid_probe_has_value`'s return code means: a negative code is a
/// failure, otherwise the value is present exactly when the code is `1`.
pub open spec fn spec_has_value_outcome(ret_code: i32, os_error_code: i32) -> BlkIdResult<bool> {
    if ret_code < 0 {
        Err(BlkIdError::Io(os_error_code))
    } else {
        Ok(ret_code == 1)
    }
}

/// Translates the return code of a presence query into a boolean.
pub fn has_value_outcome(ret_code: i32, os_error_code: i32) -> (r: BlkIdResult<bool>)
    ensures
        r == spec_has_value_outcome(ret_code, os_error_code),
{
    if ret_code < 0 {
        Err(BlkIdError::Io(os_error_code))
    } else {
        Ok(ret_code == 1)
    }
}

} // verus!
