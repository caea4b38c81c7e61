//! The cluster clock.

use anchor_lang::prelude::{Clock, ProgramError, SolanaSysvar};
use vstd::prelude::*;

verus! {

/// `ProgramError` of the runtime: the error that `Clock::get` may return. It is
/// carried through unread.
#[verifier::external_type_specification]
#[verifier::external_body]
pub struct ExProgramError(ProgramError);

/// Reads `unix_timestamp` from what `Clock::get` returns, or hands its error
/// on. The time depends on the cluster, so nothing is claimed about it.
#[verifier::external_body]
fn read_unix_timestamp() -> (r: Result<i64, ProgramError>) {
    match Clock::get() {
        Ok(clock) => Ok(clock.unix_timestamp),
        Err(e) => Err(e),
    }
}

/// The current time in seconds since the epoch, or `None` where the clock
/// cannot be read, as is the case outside the runtime.
pub(crate) fn unix_timestamp() -> (r: Option<i64>) {
    match read_unix_timestamp() {
        Ok(now) => Some(now),
        Err(_) => None,
    }
}

} // verus!
