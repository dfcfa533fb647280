//! Unlocking a vault with Touch ID.
//!
//! An agent that holds the vault key starts a helper process and hands it the
//! key. The helper has the Secure Enclave wrap the key, keeps only the
//! wrapped form, and gives the key back when the user authenticates. The modules
//! hold what the two processes decide, as state machines that say what to do next
//! and are told what came of it; whoever runs them makes the system calls.

pub mod conversation;
pub mod digest;
pub mod enclave;
pub mod error;
pub mod helper;
pub mod keys;
pub mod pipe;
pub mod protocol;
pub mod session;
pub mod spawn;
pub mod text;
pub mod wait;
