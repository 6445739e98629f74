//! Host side of a dynamically loaded core module.
//!
//! The host opens one native module, binds a small table of exported entry
//! points, shares its log sink with the module and drives the opaque state
//! that the module creates, updates and destroys. This crate holds the rules
//! of that host: which exports are mandatory, where relative paths are
//! anchored, which module file is opened, and the order in which the module's
//! entry points may be called. The caller performs each requested action and
//! reports back what happened.

pub mod error;
pub mod symbols;
pub mod paths;
pub mod logging;
pub mod lifecycle;
pub mod trace;
