//! Unlocking disk-encryption keyslots with a secret that a hardware
//! authenticator derives through its keyed-HMAC capability.
//!
//! The library holds the decisions: which device to enroll on, how a raw
//! HMAC answer becomes a fixed-length secret, what to do with a container in
//! a given state, and in which order the interactive setup proceeds. Talking
//! to devices, disks and the operator is left to the caller, who performs the
//! actions the library asks for and reports what happened.
pub mod authenticator;
pub mod config;
pub mod error;
pub mod keyslot;
pub mod secret;
pub mod workflow;
