//! Provisioning and invocation logic for a per-developer Node toolchain
//! manager: the version model, the on-disk layout, the install steps and the
//! resolver that decides which binary a command runs.

pub mod version;
pub mod layout;
pub mod distro;
pub mod install;
pub mod resolve;
pub mod checkout;
