//! Application authorization for a versioned, network-resident access-control
//! manifest: classifies an application as new, authorized or revoked, and runs
//! the register or re-grant pipeline that produces its credential bundle.

pub mod app_auth;
pub mod assoc;
pub mod entry;
pub mod hash;
pub mod laws;
pub mod network;
pub mod types;
