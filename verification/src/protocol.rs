//! The bytes that the agent and its helper exchange.

use vstd::prelude::*;

verus! {

/// The argument by which the executable is told to be the helper.
pub const HELPER_ARGUMENT: &'static str = "--biometric-helper";

/// Asks the helper for the vault key.
pub const REQUEST_UNLOCK: u8 = 1;

/// The vault key follows.
pub const RESPONSE_SUCCESS: u8 = 0;

/// The user dismissed the prompt.
pub const RESPONSE_CANCELED: u8 = 1;

/// The user asked for the master password.
pub const RESPONSE_PASSWORD_REQUESTED: u8 = 2;

/// The key could not be unlocked, or the helper could not start.
pub const RESPONSE_UNAVAILABLE: u8 = 3;

/// The helper is protected and may be given the vault key.
pub const RESPONSE_HARDENED: u8 = 4;

/// The helper has wrapped the vault key and takes requests.
pub const RESPONSE_READY: u8 = 5;

/// The bytes of the exchange, which the two processes must agree on. No response
/// can be taken for another.
pub proof fn responses_are_told_apart()
    ensures
        REQUEST_UNLOCK == 1,
        RESPONSE_SUCCESS == 0,
        RESPONSE_CANCELED == 1,
        RESPONSE_PASSWORD_REQUESTED == 2,
        RESPONSE_UNAVAILABLE == 3,
        RESPONSE_HARDENED == 4,
        RESPONSE_READY == 5,
        HELPER_ARGUMENT@ == "--biometric-helper"@,
{
}

} // verus!
