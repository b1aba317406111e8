//! The bus side of the shim: the life of a connection, property queries, and
//! the release of what a query hands out.
//!
//! The native library does the work. Each function here takes what the native
//! call answered and keeps the books: whether the connection is still open,
//! which of the outputs of a query counts, and what is left for the caller to
//! release. A status is handed on exactly as the native library gave it.
//!
//! Releasing twice, or using a connection after its release, is outside what
//! the native library defines. Those calls are ruled out by `requires`.

use vstd::prelude::*;
use crate::status::is_error;

verus! {

/// The record that describes a failed bus call.
///
/// The caller provides the descriptor and the native library fills it in.
/// `need_free` tells whether `name` and `message` live on the heap and have to
/// be released through `systemd_shim_bus_error_free`; any value but zero
/// counts as set.
#[allow(non_camel_case_types)]
#[derive(Debug, PartialEq, Eq)]
pub struct sd_bus_error {
    pub name: Option<Vec<u8>>,
    pub message: Option<Vec<u8>>,
    pub need_free: i32,
}

/// An error descriptor as plain data.
pub struct ErrorView {
    pub name: Option<Seq<u8>>,
    pub message: Option<Seq<u8>>,
    pub need_free: i32,
}

impl ErrorView {
    /// The descriptor that refers to nothing.
    pub open spec fn empty() -> ErrorView {
        ErrorView { name: None, message: None, need_free: 0 }
    }

    /// True when the descriptor's strings are the caller's to release.
    pub open spec fn owns_heap(self) -> bool {
        self.need_free != 0
    }

    /// The descriptor after its release: emptied if it owned its strings,
    /// untouched if it did not.
    pub open spec fn freed(self) -> ErrorView {
        if self.owns_heap() {
            ErrorView::empty()
        } else {
            self
        }
    }
}

impl View for sd_bus_error {
    type V = ErrorView;

    open spec fn view(&self) -> ErrorView {
        ErrorView {
            name: match self.name {
                Some(bytes) => Some(bytes@),
                None => None,
            },
            message: match self.message {
                Some(bytes) => Some(bytes@),
                None => None,
            },
            need_free: self.need_free,
        }
    }
}

impl Default for sd_bus_error {
    /// A descriptor with no name, no message and a cleared flag.
    fn default() -> (e: Self)
        ensures
            e@ == ErrorView::empty(),
    {
        sd_bus_error { name: None, message: None, need_free: 0 }
    }
}

impl sd_bus_error {
    /// Tells whether the strings of this descriptor are the caller's to
    /// release.
    pub fn owns_heap(&self) -> (owns: bool)
        ensures
            owns == self@.owns_heap(),
    {
        self.need_free != 0
    }
}

/// Where a bus connection stands in its life.
#[derive(Clone, Copy, Debug, PartialEq, Eq)]
pub enum BusHandle {
    /// No connection has been opened yet.
    Unopened,
    /// The connection is open.
    Open,
    /// The connection has been released for good.
    Released,
}

/// What a property query left with the caller.
#[derive(Debug, PartialEq, Eq)]
pub enum PropertyReply {
    /// The query succeeded. `text` is a fresh heap string, which the caller
    /// must release through `systemd_shim_free_string`.
    Value { status: i32, text: Vec<u8> },
    /// The query failed. `error` describes the failure.
    Failure { status: i32, error: sd_bus_error },
}

/// Accounts for an attempt to connect to the system bus.
///
/// `status` is what the native call returned. The connection is open
/// afterwards exactly when the status reports no error.
pub fn systemd_shim_bus_open_system(bus: &mut BusHandle, status: i32) -> (forwarded: i32)
    requires
        *old(bus) is Unopened,
    ensures
        forwarded == status,
        is_error(status) ==> *final(bus) is Unopened,
        !is_error(status) ==> *final(bus) is Open,
{
    if status >= 0 {
        *bus = BusHandle::Open;
    }
    status
}

/// Accounts for dropping one reference to an open connection.
///
/// `released` says whether the native call returned null, which it does once
/// the connection is released for good. The result tells whether the handle
/// is still usable.
pub fn systemd_shim_bus_unref(bus: &mut BusHandle, released: bool) -> (still_open: bool)
    requires
        *old(bus) is Open,
    ensures
        still_open == !released,
        released ==> *final(bus) is Released,
        !released ==> *final(bus) is Open,
{
    if released {
        *bus = BusHandle::Released;
    }
    !released
}

/// Sorts out what a property query on an open connection left behind.
///
/// `status` is what the native call returned, `text` the string it wrote and
/// `error` the descriptor as it stood after the call. A negative status makes
/// the descriptor count and the string void; any other status makes the
/// string count. The connection itself is as it was.
pub fn systemd_shim_bus_get_property_string(
    bus: &mut BusHandle,
    status: i32,
    text: Vec<u8>,
    error: sd_bus_error,
) -> (reply: PropertyReply)
    requires
        *old(bus) is Open,
    ensures
        *final(bus) == *old(bus),
        is_error(status) ==> reply == (PropertyReply::Failure { status, error }),
        !is_error(status) ==> reply == (PropertyReply::Value { status, text }),
{
    if status < 0 {
        PropertyReply::Failure { status, error }
    } else {
        PropertyReply::Value { status, text }
    }
}

/// Releases what an error descriptor refers to.
///
/// A descriptor that owns its strings is emptied. One that does not is left
/// exactly as it was.
pub fn systemd_shim_bus_error_free(e: &mut sd_bus_error)
    ensures
        final(e)@ == old(e)@.freed(),
        !old(e)@.owns_heap() ==> *final(e) == *old(e),
{
    if e.need_free != 0 {
        e.name = None;
        e.message = None;
        e.need_free = 0;
    }
}

/// Releases the string of a property query. `None` stands for the null
/// pointer, on which nothing happens. The result tells whether anything was
/// released.
pub fn systemd_shim_free_string<T>(s: Option<T>) -> (released: bool)
    ensures
        released == s is Some,
{
    s.is_some()
}

/// Releasing a descriptor that owns nothing changes nothing, releasing the
/// empty descriptor leaves it empty, and a second release after a first
/// changes nothing more.
pub proof fn lemma_error_free_idempotent(e: ErrorView)
    ensures
        !e.owns_heap() ==> e.freed() == e,
        ErrorView::empty().freed() == ErrorView::empty(),
        !e.freed().owns_heap(),
        e.freed().freed() == e.freed(),
{
}

/// A connection that was opened with success and then released for good
/// admits no further call: it is neither unopened nor open.
pub proof fn lemma_released_is_final(bus: BusHandle)
    requires
        bus is Released,
    ensures
        !(bus is Open),
        !(bus is Unopened),
{
}

} // verus!
