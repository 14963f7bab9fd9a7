//! Starting the secondary logical processors, and reaching the per-processor copy of a value.
use vstd::prelude::*;

use crate::interrupt_routing::LpId;

verus! {

/// The flag of the boot loader's multiprocessor response telling that every local APIC is in
/// x2APIC mode.
pub const MP_FLAG_X2APIC: u32 = 1;

#[derive(Debug, Clone, Copy, PartialEq, Eq, Structural)]
pub enum MpError {
    SecondaryLpStartupFailed,
}

/// Checks the boot loader's multiprocessor response, given by its flags where there is one: the
/// caller then hands each processor its entry point. Without a response the secondary processors
/// cannot be started.
pub fn start_secondary_lps(response_flags: Option<u32>) -> (r: Result<(), MpError>)
    requires
        response_flags matches Some(flags) ==> flags & MP_FLAG_X2APIC != 0,
    ensures
        response_flags is Some ==> r is Ok,
        response_flags is None ==> r == Err::<(), MpError>(MpError::SecondaryLpStartupFailed),
{
    match response_flags {
        Some(_) => Ok(()),
        None => Err(MpError::SecondaryLpStartupFailed),
    }
}

/// Errors of reaching a per-processor value.
#[derive(Debug, Clone, Copy, PartialEq, Eq, Structural)]
pub enum Error {
    TargetBusy,
    InvalidIndex,
}

/// The slot of processor `lp_id` among `lp_count` per-processor slots.
pub fn nonlocal_slot(lp_count: usize, lp_id: LpId) -> (r: Result<usize, Error>)
    ensures
        lp_id < lp_count ==> r == Ok::<usize, Error>(lp_id as usize),
        lp_id >= lp_count ==> r == Err::<usize, Error>(Error::InvalidIndex),
{
    if (lp_id as usize) < lp_count {
        Ok(lp_id as usize)
    } else {
        Err(Error::InvalidIndex)
    }
}

} // verus!
