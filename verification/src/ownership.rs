//! Who owns what crosses the boundary.
//!
//! No type on the C side says who must release a handle or a string, how long
//! a buffer stays readable, or where a run of bytes ends. This module is the
//! table that says it, one row for each thing that a shim call takes or hands
//! out.

use vstd::prelude::*;

verus! {

/// The three ways in which something that crosses the boundary can be owned.
#[derive(Clone, Copy, Debug, PartialEq, Eq)]
pub enum Ownership {
    /// The caller made it and keeps it; the native library only uses it
    /// during the call.
    CallerOwns,
    /// The native library owns it and lends it; the caller must not release
    /// it and may use it only for a limited time.
    LibraryBorrowed,
    /// The native library made it for the caller, who must release it exactly
    /// once through the matching routine.
    CallerMustFree,
}

/// The routines through which the caller gives something back.
#[derive(Clone, Copy, Debug, PartialEq, Eq)]
pub enum Release {
    /// `unref`, for a bus connection.
    Unref,
    /// `journal_close`, for a journal reader.
    JournalClose,
    /// `free_string`, for the string of a property query.
    FreeString,
    /// `error_free`, for the strings of an error descriptor.
    ErrorFree,
}

/// How the end of a run of bytes is told.
#[derive(Clone, Copy, Debug, PartialEq, Eq)]
pub enum Framing {
    /// A pointer to text that ends at the first zero byte.
    Terminated,
    /// A pointer together with an explicit length; any byte may occur.
    Counted,
}

/// Each thing that a shim call takes or hands out.
#[derive(Clone, Copy, Debug, PartialEq, Eq)]
pub enum Crossing {
    /// The handle of a bus connection.
    BusConnection,
    /// The handle of an in-flight bus message.
    BusMessage,
    /// The handle of a journal reader.
    JournalReader,
    /// The record that an error descriptor is, without its strings.
    ErrorDescriptor,
    /// The destination name given to a property query.
    Destination,
    /// The object path given to a property query.
    ObjectPath,
    /// The interface name given to a property query.
    Interface,
    /// The member name given to a property query.
    Member,
    /// The string a property query hands out on success.
    PropertyValue,
    /// The name in an error descriptor.
    ErrorName,
    /// The message in an error descriptor.
    ErrorMessage,
    /// The match expression given to the journal.
    MatchExpression,
    /// The field name given to a journal data lookup.
    FieldName,
    /// The bytes a journal data lookup hands out.
    FieldData,
}

impl Crossing {
    /// True for the strings and buffers that the caller passes in.
    pub open spec fn is_input(self) -> bool {
        self is Destination || self is ObjectPath || self is Interface || self is Member
            || self is MatchExpression || self is FieldName
    }

    /// True for the two strings of an error descriptor.
    pub open spec fn in_descriptor(self) -> bool {
        self is ErrorName || self is ErrorMessage
    }

    /// True for the handles that the caller opens.
    pub open spec fn is_opened_handle(self) -> bool {
        self is BusConnection || self is JournalReader
    }

    /// True for handles and for the descriptor record, which are no runs of
    /// bytes.
    pub open spec fn is_record(self) -> bool {
        self.is_opened_handle() || self is BusMessage || self is ErrorDescriptor
    }
}

/// The table of ownership. `need_free` is the flag of the error descriptor at
/// hand; it matters only for the strings of a descriptor.
pub open spec fn ownership(what: Crossing, need_free: bool) -> Ownership {
    if what.is_input() || what is ErrorDescriptor {
        Ownership::CallerOwns
    } else if what.is_opened_handle() || what is PropertyValue {
        Ownership::CallerMustFree
    } else if what.in_descriptor() && need_free {
        Ownership::CallerMustFree
    } else {
        Ownership::LibraryBorrowed
    }
}

/// The routine that releases `what`, if the caller must release it.
pub open spec fn release_routine(what: Crossing, need_free: bool) -> Option<Release> {
    match what {
        Crossing::BusConnection => Some(Release::Unref),
        Crossing::JournalReader => Some(Release::JournalClose),
        Crossing::PropertyValue => Some(Release::FreeString),
        Crossing::ErrorName | Crossing::ErrorMessage => if need_free {
            Some(Release::ErrorFree)
        } else {
            None
        },
        _ => None,
    }
}

/// How the end of `what` is told; `None` for what is no run of bytes.
pub open spec fn framing(what: Crossing) -> Option<Framing> {
    if what.is_record() {
        None
    } else if what is MatchExpression || what is FieldData {
        Some(Framing::Counted)
    } else {
        Some(Framing::Terminated)
    }
}

/// Looks up who owns `what`.
pub fn ownership_of(what: Crossing, need_free: bool) -> (owner: Ownership)
    ensures
        owner == ownership(what, need_free),
{
    match what {
        Crossing::BusConnection | Crossing::JournalReader | Crossing::PropertyValue => {
            Ownership::CallerMustFree
        },
        Crossing::ErrorName | Crossing::ErrorMessage => if need_free {
            Ownership::CallerMustFree
        } else {
            Ownership::LibraryBorrowed
        },
        Crossing::BusMessage | Crossing::FieldData => Ownership::LibraryBorrowed,
        _ => Ownership::CallerOwns,
    }
}

/// Looks up the routine through which the caller releases `what`; `None`
/// where the caller has nothing to release.
pub fn released_by(what: Crossing, need_free: bool) -> (routine: Option<Release>)
    ensures
        routine == release_routine(what, need_free),
{
    match what {
        Crossing::BusConnection => Some(Release::Unref),
        Crossing::JournalReader => Some(Release::JournalClose),
        Crossing::PropertyValue => Some(Release::FreeString),
        Crossing::ErrorName | Crossing::ErrorMessage => if need_free {
            Some(Release::ErrorFree)
        } else {
            None
        },
        _ => None,
    }
}

/// Looks up how the end of `what` is told.
pub fn framing_of(what: Crossing) -> (told: Option<Framing>)
    ensures
        told == framing(what),
{
    match what {
        Crossing::BusConnection
        | Crossing::BusMessage
        | Crossing::JournalReader
        | Crossing::ErrorDescriptor => None,
        Crossing::MatchExpression | Crossing::FieldData => Some(Framing::Counted),
        _ => Some(Framing::Terminated),
    }
}

/// A release routine exists for exactly what the caller must free. What the
/// caller passes in stays the caller's, and the bytes of a journal field are
/// never the caller's to release.
pub proof fn lemma_release_matches_ownership(what: Crossing, need_free: bool)
    ensures
        release_routine(what, need_free) is Some <==> ownership(what, need_free)
            is CallerMustFree,
        what.is_input() ==> ownership(what, need_free) is CallerOwns,
        ownership(Crossing::FieldData, need_free) is LibraryBorrowed,
        release_routine(Crossing::FieldData, need_free) is None,
{
}

/// Every run of bytes has a framing, and only the two journal buffers carry
/// an explicit length.
pub proof fn lemma_framing(what: Crossing)
    ensures
        framing(what) is None <==> what.is_record(),
        framing(what) == Some(Framing::Counted) <==> (what is MatchExpression || what
            is FieldData),
{
}

} // verus!
