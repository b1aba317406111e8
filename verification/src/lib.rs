//! Verified bookkeeping for a thin C-ABI shim over the system service bus and
//! the system log journal.
//!
//! The shim itself forwards every call to the native library and returns what
//! came back. What a caller has to get right is not in any of those calls: a
//! handle is released exactly once, a status is negative on failure, a string
//! is freed by the right routine, and borrowed bytes are read only while the
//! cursor stays put. This crate states those rules and proves that its books
//! follow them.
//!
//! - [`handles`]: the opaque marker types behind the raw pointers.
//! - [`status`]: how a status is read.
//! - [`ownership`]: who owns each thing that crosses the boundary.
//! - [`bus`]: the life of a bus connection, property queries, releases.
//! - [`journal`]: the life of a journal reader and of the bytes it lends.
//! - [`backend`]: the decisions of the desktop shell around its backend.
//! - [`text`]: lenient decoding of bytes.

pub mod backend;
pub mod bus;
pub mod handles;
pub mod journal;
pub mod ownership;
pub mod status;
pub mod text;

pub use crate::bus::{
    sd_bus_error, systemd_shim_bus_error_free, systemd_shim_bus_get_property_string,
    systemd_shim_bus_open_system, systemd_shim_bus_unref, systemd_shim_free_string,
};
pub use crate::handles::{sd_bus, sd_bus_message, sd_journal};
pub use crate::journal::{
    systemd_shim_journal_add_match, systemd_shim_journal_close, systemd_shim_journal_get_data,
    systemd_shim_journal_next, systemd_shim_journal_open, systemd_shim_journal_previous,
    systemd_shim_journal_seek_tail,
};
