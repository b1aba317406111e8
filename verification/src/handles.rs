//! Opaque native handles.
//!
//! Each handle type is a zero-sized marker. A caller only ever holds a raw
//! pointer to one and hands that pointer back to the native library; nothing
//! on this side of the boundary looks behind it.

use vstd::prelude::*;

verus! {

/// Marks a pointer to an open connection to the system service bus.
#[allow(non_camel_case_types)]
#[derive(Clone, Copy, Debug, PartialEq, Eq)]
pub enum sd_bus {
    Opaque,
}

/// Marks a pointer to an in-flight bus message. A message belongs to the
/// connection that produced it.
#[allow(non_camel_case_types)]
#[derive(Clone, Copy, Debug, PartialEq, Eq)]
pub enum sd_bus_message {
    Opaque,
}

/// Marks a pointer to an open cursor into the system log journal.
#[allow(non_camel_case_types)]
#[derive(Clone, Copy, Debug, PartialEq, Eq)]
pub enum sd_journal {
    Opaque,
}

} // verus!
