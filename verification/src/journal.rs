//! The journal side of the shim: the life of a journal reader.
//!
//! A reader is unopened, then opened, then optionally filtered by match
//! expressions, then positioned by a seek or a step, and at last closed. The
//! native library does the reading. Each function here takes what the native
//! call answered and moves the books along: the phase of the reader, the
//! match expressions it has accepted, and how many times its cursor has been
//! asked to move. A status is handed on exactly as the native library gave
//! it.
//!
//! Using a reader that is not open, closing it twice, or asking for data
//! before any successful positioning is outside what the native library
//! defines. Those calls are ruled out by `requires`.

use vstd::prelude::*;
use crate::status::{cursor_move, is_error, CursorMove};

verus! {

/// Where a journal reader stands in its life.
#[derive(Clone, Copy, Debug, PartialEq, Eq)]
pub enum JournalPhase {
    /// No reader has been opened yet.
    Unopened,
    /// The reader is open and its cursor has not been positioned.
    Opened,
    /// The cursor has been positioned. `on_record` tells whether it stands on
    /// a record, which is when a data lookup is meaningful.
    Positioned { on_record: bool },
    /// The reader has been closed.
    Closed,
}

/// The books kept for one journal reader.
#[derive(Debug, PartialEq, Eq)]
pub struct JournalHandle {
    /// The phase of the reader.
    pub phase: JournalPhase,
    /// The flags the reader was opened with.
    pub flags: i32,
    /// The match expressions the reader has accepted, oldest first.
    pub matches: Vec<Vec<u8>>,
    /// How many times the cursor has been asked to move.
    pub moves: u64,
}

/// A journal reader as plain data.
pub struct JournalView {
    pub phase: JournalPhase,
    pub flags: i32,
    pub matches: Seq<Seq<u8>>,
    pub moves: nat,
}

/// The right to read the bytes that one data lookup handed out.
///
/// The bytes belong to the journal. They stay readable until the cursor is
/// next asked to move, and no longer.
#[derive(Debug, PartialEq, Eq)]
pub struct DataLease {
    /// The field that was looked up.
    pub field: Vec<u8>,
    /// The number of bytes handed out.
    pub length: usize,
    /// The number of cursor moves at the time of the lookup.
    pub epoch: u64,
}

/// A lease as plain data.
pub struct LeaseView {
    pub field: Seq<u8>,
    pub length: nat,
    pub epoch: nat,
}

impl View for JournalHandle {
    type V = JournalView;

    open spec fn view(&self) -> JournalView {
        JournalView {
            phase: self.phase,
            flags: self.flags,
            matches: self.matches@.map_values(|expression: Vec<u8>| expression@),
            moves: self.moves as nat,
        }
    }
}

impl View for DataLease {
    type V = LeaseView;

    open spec fn view(&self) -> LeaseView {
        LeaseView { field: self.field@, length: self.length as nat, epoch: self.epoch as nat }
    }
}

impl JournalView {
    /// A reader that has not been opened.
    pub open spec fn fresh() -> JournalView {
        JournalView { phase: JournalPhase::Unopened, flags: 0, matches: Seq::empty(), moves: 0 }
    }

    /// True between a successful open and the close.
    pub open spec fn is_open(self) -> bool {
        self.phase is Opened || self.phase is Positioned
    }

    /// True once a seek or a step has succeeded on the open reader.
    pub open spec fn is_positioned(self) -> bool {
        self.phase is Positioned
    }

    /// True while the cursor stands on a record.
    pub open spec fn on_record(self) -> bool {
        self.phase == (JournalPhase::Positioned { on_record: true })
    }

    /// True once the reader has accepted a match expression.
    pub open spec fn is_filtered(self) -> bool {
        self.matches.len() > 0
    }

    /// The reader after an attempt to open it with `flags`.
    pub open spec fn after_open(self, flags: i32, status: i32) -> JournalView {
        if is_error(status) {
            self
        } else {
            JournalView { phase: JournalPhase::Opened, flags, matches: Seq::empty(), moves: 0 }
        }
    }

    /// The reader after its close.
    pub open spec fn after_close(self) -> JournalView {
        JournalView { phase: JournalPhase::Closed, ..self }
    }

    /// The reader after it was offered the match expression `data`.
    pub open spec fn after_add_match(self, data: Seq<u8>, status: i32) -> JournalView {
        if is_error(status) {
            self
        } else {
            JournalView { matches: self.matches.push(data), ..self }
        }
    }

    /// The reader after its cursor was sent past the newest record.
    pub open spec fn after_seek_tail(self, status: i32) -> JournalView {
        JournalView {
            phase: if is_error(status) {
                self.phase
            } else {
                JournalPhase::Positioned { on_record: false }
            },
            moves: self.moves + 1,
            ..self
        }
    }

    /// The reader after its cursor was asked to step to the next or the
    /// previous record.
    pub open spec fn after_step(self, status: i32) -> JournalView {
        JournalView {
            phase: match cursor_move(status) {
                CursorMove::Reached => JournalPhase::Positioned { on_record: true },
                CursorMove::Exhausted => JournalPhase::Positioned { on_record: false },
                CursorMove::Failed => self.phase,
            },
            moves: self.moves + 1,
            ..self
        }
    }

    /// The lease that a successful lookup of `field` hands out now.
    pub open spec fn lease(self, field: Seq<u8>, length: nat) -> LeaseView {
        LeaseView { field, length, epoch: self.moves }
    }

    /// True while the bytes under `lease` may still be read: the reader is
    /// open and its cursor has not been asked to move since the lookup.
    pub open spec fn honours(self, lease: LeaseView) -> bool {
        self.is_open() && lease.epoch == self.moves
    }
}

impl JournalHandle {
    /// The books for a reader that has not been opened.
    pub fn new() -> (journal: JournalHandle)
        ensures
            journal@ == JournalView::fresh(),
    {
        let journal = JournalHandle {
            phase: JournalPhase::Unopened,
            flags: 0,
            matches: Vec::new(),
            moves: 0,
        };
        assert(journal@.matches =~= Seq::empty());
        journal
    }

    /// Tells whether the reader is open.
    pub fn is_open(&self) -> (open: bool)
        ensures
            open == self@.is_open(),
    {
        match self.phase {
            JournalPhase::Opened => true,
            JournalPhase::Positioned { .. } => true,
            _ => false,
        }
    }

    /// Tells whether the cursor has been positioned.
    pub fn is_positioned(&self) -> (positioned: bool)
        ensures
            positioned == self@.is_positioned(),
    {
        match self.phase {
            JournalPhase::Positioned { .. } => true,
            _ => false,
        }
    }

    /// Tells whether the cursor stands on a record.
    pub fn on_record(&self) -> (on: bool)
        ensures
            on == self@.on_record(),
    {
        match self.phase {
            JournalPhase::Positioned { on_record } => on_record,
            _ => false,
        }
    }

    /// Tells whether the bytes under `lease` may still be read.
    pub fn honours(&self, lease: &DataLease) -> (valid: bool)
        ensures
            valid == self@.honours(lease@),
    {
        self.is_open() && lease.epoch == self.moves
    }
}

/// Accounts for an attempt to open a journal reader with `flags`.
///
/// `status` is what the native call returned. The reader is open afterwards
/// exactly when the status reports no error; it then has no match expression
/// and an unpositioned cursor.
pub fn systemd_shim_journal_open(
    journal: &mut JournalHandle,
    flags: i32,
    status: i32,
) -> (forwarded: i32)
    requires
        old(journal)@.phase is Unopened,
    ensures
        forwarded == status,
        final(journal)@ == old(journal)@.after_open(flags, status),
{
    if status >= 0 {
        journal.phase = JournalPhase::Opened;
        journal.flags = flags;
        journal.matches = Vec::new();
        journal.moves = 0;
        assert(journal@.matches =~= Seq::empty());
    }
    status
}

/// Accounts for the close of an open reader.
pub fn systemd_shim_journal_close(journal: &mut JournalHandle)
    requires
        old(journal)@.is_open(),
    ensures
        final(journal)@ == old(journal)@.after_close(),
{
    journal.phase = JournalPhase::Closed;
}

/// Accounts for a match expression offered to an open reader.
///
/// `data` is the expression, byte for byte, and `status` what the native call
/// returned. The expression joins the accepted ones exactly when the status
/// reports no error.
pub fn systemd_shim_journal_add_match(
    journal: &mut JournalHandle,
    data: Vec<u8>,
    status: i32,
) -> (forwarded: i32)
    requires
        old(journal)@.is_open(),
    ensures
        forwarded == status,
        final(journal)@ == old(journal)@.after_add_match(data@, status),
{
    if status >= 0 {
        journal.matches.push(data);
        assert(journal@.matches =~= old(journal)@.matches.push(data@));
    }
    status
}

/// Accounts for sending the cursor of an open reader past the newest record.
///
/// `status` is what the native call returned. On success the cursor is
/// positioned and stands on no record.
pub fn systemd_shim_journal_seek_tail(journal: &mut JournalHandle, status: i32) -> (forwarded: i32)
    requires
        old(journal)@.is_open(),
        old(journal)@.moves < u64::MAX,
    ensures
        forwarded == status,
        final(journal)@ == old(journal)@.after_seek_tail(status),
{
    if status >= 0 {
        journal.phase = JournalPhase::Positioned { on_record: false };
    }
    journal.moves = journal.moves + 1;
    status
}

/// Accounts for one step of the cursor towards older records.
///
/// `status` is what the native call returned: positive when a record was
/// reached, zero when none is left, negative on error.
pub fn systemd_shim_journal_previous(journal: &mut JournalHandle, status: i32) -> (forwarded: i32)
    requires
        old(journal)@.is_open(),
        old(journal)@.moves < u64::MAX,
    ensures
        forwarded == status,
        final(journal)@ == old(journal)@.after_step(status),
{
    step(journal, status)
}

/// Accounts for one step of the cursor towards newer records.
///
/// `status` is what the native call returned: positive when a record was
/// reached, zero when none is left, negative on error.
pub fn systemd_shim_journal_next(journal: &mut JournalHandle, status: i32) -> (forwarded: i32)
    requires
        old(journal)@.is_open(),
        old(journal)@.moves < u64::MAX,
    ensures
        forwarded == status,
        final(journal)@ == old(journal)@.after_step(status),
{
    step(journal, status)
}

/// One step of the cursor, in either direction.
fn step(journal: &mut JournalHandle, status: i32) -> (forwarded: i32)
    requires
        old(journal)@.is_open(),
        old(journal)@.moves < u64::MAX,
    ensures
        forwarded == status,
        final(journal)@ == old(journal)@.after_step(status),
{
    if status > 0 {
        journal.phase = JournalPhase::Positioned { on_record: true };
    } else if status == 0 {
        journal.phase = JournalPhase::Positioned { on_record: false };
    }
    journal.moves = journal.moves + 1;
    status
}

/// Accounts for a lookup of `field` in the record under the cursor.
///
/// `status` is what the native call returned and `length` the number of bytes
/// it handed out. A lease on those bytes comes back exactly when the status
/// reports no error. The reader itself is as it was.
pub fn systemd_shim_journal_get_data(
    journal: &mut JournalHandle,
    field: Vec<u8>,
    length: usize,
    status: i32,
) -> (read: (i32, Option<DataLease>))
    requires
        old(journal)@.is_positioned(),
    ensures
        *final(journal) == *old(journal),
        read.0 == status,
        is_error(status) ==> read.1 is None,
        !is_error(status) ==> (read.1 matches Some(lease) && lease@ == old(journal)@.lease(
            field@,
            length as nat,
        )),
{
    if status < 0 {
        (status, None)
    } else {
        (status, Some(DataLease { field, length, epoch: journal.moves }))
    }
}

/// A reader that is opened with success can be closed at once, and is then
/// closed. A reader whose open failed is still unopened and has nothing to
/// close.
pub proof fn lemma_open_then_close(flags: i32, status: i32)
    ensures
        !is_error(status) ==> JournalView::fresh().after_open(flags, status).is_open(),
        !is_error(status) ==> JournalView::fresh().after_open(flags, status).after_close().phase
            is Closed,
        is_error(status) ==> JournalView::fresh().after_open(flags, status)
            == JournalView::fresh(),
        !JournalView::fresh().is_open(),
{
}

/// A closed reader admits no further call: it is not open, not unopened and
/// not positioned, and it honours no lease.
pub proof fn lemma_closed_is_final(journal: JournalView, lease: LeaseView)
    requires
        journal.is_open(),
    ensures
        !journal.after_close().is_open(),
        !(journal.after_close().phase is Unopened),
        !journal.after_close().is_positioned(),
        !journal.after_close().honours(lease),
{
}

/// Data can be asked for only after a successful positioning. A reader that
/// was just opened is not positioned; a successful seek positions it on no
/// record; a step positions it on a record exactly when its status is
/// positive; and a failed seek or step leaves the phase as it was.
pub proof fn lemma_positioning(journal: JournalView, flags: i32, status: i32)
    ensures
        !JournalView::fresh().after_open(flags, status).is_positioned(),
        !is_error(status) ==> journal.after_seek_tail(status).is_positioned(),
        !is_error(status) ==> !journal.after_seek_tail(status).on_record(),
        !is_error(status) ==> journal.after_step(status).is_positioned(),
        !is_error(status) ==> (journal.after_step(status).on_record() <==> status > 0),
        is_error(status) ==> journal.after_seek_tail(status).phase == journal.phase,
        is_error(status) ==> journal.after_step(status).phase == journal.phase,
{
}

/// The bytes of a lookup stay readable until the cursor is next asked to
/// move. The lease is good when it is handed out and stays good across
/// further match expressions; after a seek, a step or the close it is void.
pub proof fn lemma_lease_lifetime(
    journal: JournalView,
    field: Seq<u8>,
    length: nat,
    data: Seq<u8>,
    status: i32,
)
    requires
        journal.is_positioned(),
    ensures
        journal.honours(journal.lease(field, length)),
        journal.after_add_match(data, status).honours(journal.lease(field, length)),
        !journal.after_step(status).honours(journal.lease(field, length)),
        !journal.after_seek_tail(status).honours(journal.lease(field, length)),
        !journal.after_close().honours(journal.lease(field, length)),
        journal.after_step(status).is_positioned() ==> journal.after_step(status).honours(
            journal.after_step(status).lease(field, length),
        ),
{
}

/// Match expressions pile up in the order in which they were accepted, and
/// neither a seek nor a step nor the close forgets one.
pub proof fn lemma_matches_accumulate(journal: JournalView, data: Seq<u8>, status: i32)
    ensures
        !is_error(status) ==> journal.after_add_match(data, status).matches
            == journal.matches.push(data),
        !is_error(status) ==> journal.after_add_match(data, status).is_filtered(),
        is_error(status) ==> journal.after_add_match(data, status) == journal,
        journal.after_add_match(data, status).phase == journal.phase,
        journal.after_seek_tail(status).matches == journal.matches,
        journal.after_step(status).matches == journal.matches,
        journal.after_close().matches == journal.matches,
{
}

} // verus!
