//! The host's clock.

use anchor_lang::prelude::{Clock, SolanaSysvar};
use vstd::prelude::*;

verus! {

/// The error type of the host's system calls, `ProgramError` of
/// `solana_program` as `anchor_lang::prelude` hands it on. Nothing is known
/// of a value of it.
#[verifier::external_type_specification]
#[verifier::external_body]
pub struct ExProgramError(anchor_lang::prelude::ProgramError);

/// Asks the host for the time, in seconds since the Unix epoch.
///
/// This calls `Clock::get`, the `get` of the trait `Sysvar` of
/// `solana_program` that `anchor_lang::prelude` hands on as `SolanaSysvar`,
/// and returns the `unix_timestamp` of the clock it gives, or the error it
/// gives. Nothing is claimed of the answer: the host decides what time it is
/// and whether it tells, and two calls may differ.
#[verifier::external_body]
pub(crate) fn host_unix_timestamp() -> (now: Result<i64, anchor_lang::prelude::ProgramError>) {
    match Clock::get() {
        Ok(clock) => Ok(clock.unix_timestamp),
        Err(e) => Err(e),
    }
}

} // verus!
