//! Verified core of a loadable extension module: the module descriptor, its
//! method and initialization-slot tables, the load-time capability check, and
//! the one exported function that sums two host-provided integers.
//!
//! The host runtime's binary interface itself (raw pointers, C calling
//! conventions) cannot be expressed here; the decisions and data behind it
//! are modelled on plain values and verified.

pub mod host;
pub mod methods;
pub mod lifecycle;
pub mod tables;
