//! Device/CPU-state core of a lightweight virtual machine monitor.
//!
//! The crate has three parts:
//! - `core_regs`: the bit-exact encoding of AArch64 core-register
//!   identifiers for the host kernel's register-access interface, and the
//!   bulk snapshot/restore plan for a virtual CPU's register file;
//! - `features`, `device` and `lifecycle`: the uniform lifecycle and
//!   feature-negotiation protocol every paravirtualized device backend
//!   obeys, so a generic transport can drive any of them identically;
//! - `netcfg` (on `strutil`): the network device/netdev configuration
//!   structures and their command-string parser.

pub mod core_regs;
pub mod device;
pub mod features;
pub mod lifecycle;
pub mod netcfg;
pub mod strutil;

pub use features::virtio_has_feature;
