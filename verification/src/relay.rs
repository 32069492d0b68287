//! One direction of a tunnel: a copy loop bounded by a byte ceiling.
//!
//! The caller reads and writes the sockets under its idle timeout. After each
//! operation it reports what happened and is told what to do next. A chunk
//! that was read is handed in with the report and handed back to be written.

use vstd::prelude::*;
use crate::diagnostics::{
    analyze_transfer_error, lowercase, mentions_tls, opt_view, transfer_warning,
};
use crate::stats::{no_change, StatsDelta};

verus! {

/// Why a direction of a tunnel stopped before its source closed.
#[derive(Clone, Copy, Debug, PartialEq, Eq, Structural)]
pub enum TransferError {
    /// A read or a write did not complete within the idle window.
    IdleTimeout,
    /// The bytes read would have passed the ceiling.
    SizeLimitExceeded,
    /// A read or a write failed, or what was reported answers no operation
    /// that was pending.
    IoError,
}

/// What the caller observed of the operation it was asked to perform.
#[derive(Debug, PartialEq, Eq)]
pub enum CopyEvent {
    /// A read returned `data`; no bytes means the source closed.
    ReadDone { data: Vec<u8> },
    /// A read failed.
    ReadFailed,
    /// A read did not complete within the idle window.
    ReadTimedOut,
    /// The chunk was written in full.
    WriteDone,
    /// A write failed.
    WriteFailed,
    /// A write did not complete within the idle window.
    WriteTimedOut,
}

/// Mathematical value of a [`CopyEvent`].
pub enum CopyEventView {
    ReadDone { data: Seq<u8> },
    ReadFailed,
    ReadTimedOut,
    WriteDone,
    WriteFailed,
    WriteTimedOut,
}

impl View for CopyEvent {
    type V = CopyEventView;

    open spec fn view(&self) -> CopyEventView {
        match self {
            CopyEvent::ReadDone { data } => CopyEventView::ReadDone { data: data@ },
            CopyEvent::ReadFailed => CopyEventView::ReadFailed,
            CopyEvent::ReadTimedOut => CopyEventView::ReadTimedOut,
            CopyEvent::WriteDone => CopyEventView::WriteDone,
            CopyEvent::WriteFailed => CopyEventView::WriteFailed,
            CopyEvent::WriteTimedOut => CopyEventView::WriteTimedOut,
        }
    }
}

/// What the caller is to do next.
#[derive(Debug, PartialEq, Eq)]
pub enum CopyAction {
    /// Read the next chunk from the source.
    Read,
    /// Write all of `data` to the peer.
    Write { data: Vec<u8> },
    /// The source closed and everything read was written: stop.
    Succeed,
    /// Stop with `error`.
    Fail { error: TransferError },
}

/// Mathematical value of a [`CopyAction`].
pub enum CopyActionView {
    Read,
    Write { data: Seq<u8> },
    Succeed,
    Fail { error: TransferError },
}

impl View for CopyAction {
    type V = CopyActionView;

    open spec fn view(&self) -> CopyActionView {
        match self {
            CopyAction::Read => CopyActionView::Read,
            CopyAction::Write { data } => CopyActionView::Write { data: data@ },
            CopyAction::Succeed => CopyActionView::Succeed,
            CopyAction::Fail { error } => CopyActionView::Fail { error: *error },
        }
    }
}

/// Where a direction stands.
#[derive(Clone, Copy, Debug, PartialEq, Eq, Structural)]
pub enum CopyPhase {
    /// A read is pending.
    Reading,
    /// The write of the chunk last read is pending.
    Writing,
    /// The source closed.
    Finished,
    /// The direction failed with `error`.
    Failed { error: TransferError },
}

/// Mathematical value of a [`CopyState`].
pub struct CopyView {
    /// The ceiling on the bytes this direction may carry.
    pub max_size: u64,
    /// Bytes read so far that stayed within the ceiling.
    pub accepted: u64,
    /// Bytes written to the peer so far.
    pub forwarded: u64,
    /// The pending operation, or how the direction ended.
    pub phase: CopyPhase,
    /// The bytes that were accepted and not yet written.
    pub pending: Seq<u8>,
}

/// The counters of a direction fit its phase and stay within the ceiling.
pub open spec fn copy_wf(v: CopyView) -> bool {
    &&& v.forwarded <= v.accepted <= v.max_size
    &&& v.pending.len() == v.accepted - v.forwarded
    &&& v.phase is Reading ==> v.pending.len() == 0
    &&& v.phase is Finished ==> v.pending.len() == 0
    &&& v.phase is Writing ==> v.pending.len() > 0
}

/// A direction that has carried nothing yet and waits for its first read.
pub open spec fn copy_start(max_size: u64) -> CopyView {
    CopyView {
        max_size,
        accepted: 0,
        forwarded: 0,
        phase: CopyPhase::Reading,
        pending: Seq::empty(),
    }
}

/// `v` stopped with `error`.
pub open spec fn copy_failed(v: CopyView, error: TransferError) -> (CopyView, CopyActionView) {
    (CopyView { phase: CopyPhase::Failed { error }, ..v }, CopyActionView::Fail { error })
}

/// The chunk that a step admits: what a pending read returned, where that
/// keeps the bytes read within the ceiling.
pub open spec fn admitted(v: CopyView, event: CopyEventView) -> Seq<u8> {
    match (v.phase, event) {
        (CopyPhase::Reading, CopyEventView::ReadDone { data }) => if v.accepted + data.len()
            <= v.max_size {
            data
        } else {
            Seq::empty()
        },
        _ => Seq::empty(),
    }
}

/// The chunk that a step confirms as written to the peer.
pub open spec fn delivered(v: CopyView, event: CopyEventView) -> Seq<u8> {
    match (v.phase, event) {
        (CopyPhase::Writing, CopyEventView::WriteDone) => v.pending,
        _ => Seq::empty(),
    }
}

/// One step of a direction: the state after `event` and the next action.
///
/// A read of no bytes ends the direction cleanly. A read that would take the
/// bytes read past the ceiling fails it, and so does every failure, every
/// timeout, and every event that answers no pending operation. A chunk that
/// is admitted is handed back unchanged to be written. A direction that has
/// ended stays as it is.
pub open spec fn copy_step(v: CopyView, event: CopyEventView) -> (CopyView, CopyActionView) {
    match (v.phase, event) {
        (CopyPhase::Finished, _) => (v, CopyActionView::Succeed),
        (CopyPhase::Failed { error }, _) => (v, CopyActionView::Fail { error }),
        (CopyPhase::Reading, CopyEventView::ReadDone { data }) => {
            if data.len() == 0 {
                (CopyView { phase: CopyPhase::Finished, ..v }, CopyActionView::Succeed)
            } else if v.accepted + data.len() > v.max_size {
                copy_failed(v, TransferError::SizeLimitExceeded)
            } else {
                (
                    CopyView {
                        accepted: (v.accepted + data.len()) as u64,
                        phase: CopyPhase::Writing,
                        pending: data,
                        ..v
                    },
                    CopyActionView::Write { data },
                )
            }
        },
        (CopyPhase::Reading, CopyEventView::ReadFailed) => copy_failed(v, TransferError::IoError),
        (CopyPhase::Reading, CopyEventView::ReadTimedOut) => copy_failed(
            v,
            TransferError::IdleTimeout,
        ),
        (CopyPhase::Writing, CopyEventView::WriteDone) => (
            CopyView {
                forwarded: (v.forwarded + v.pending.len()) as u64,
                phase: CopyPhase::Reading,
                pending: Seq::empty(),
                ..v
            },
            CopyActionView::Read,
        ),
        (CopyPhase::Writing, CopyEventView::WriteFailed) => copy_failed(v, TransferError::IoError),
        (CopyPhase::Writing, CopyEventView::WriteTimedOut) => copy_failed(
            v,
            TransferError::IdleTimeout,
        ),
        // what was reported answers no operation that was pending
        _ => copy_failed(v, TransferError::IoError),
    }
}

/// The number of bytes that a step confirms as written to the peer.
pub open spec fn bytes_forwarded(v: CopyView, event: CopyEventView) -> u64 {
    delivered(v, event).len() as u64
}

/// One direction of a tunnel.
pub struct CopyState {
    max_size: u64,
    accepted: u64,
    forwarded: u64,
    phase: CopyPhase,
    pending: Ghost<Seq<u8>>,
}

impl View for CopyState {
    type V = CopyView;

    closed spec fn view(&self) -> CopyView {
        CopyView {
            max_size: self.max_size,
            accepted: self.accepted,
            forwarded: self.forwarded,
            phase: self.phase,
            pending: self.pending@,
        }
    }
}

impl CopyState {
    #[verifier::type_invariant]
    spec fn inv(self) -> bool {
        copy_wf(self@)
    }

    /// A direction with the given ceiling that waits for its first read.
    pub fn new(max_size: u64) -> (state: CopyState)
        ensures
            state@ == copy_start(max_size),
    {
        CopyState {
            max_size,
            accepted: 0,
            forwarded: 0,
            phase: CopyPhase::Reading,
            pending: Ghost(Seq::empty()),
        }
    }

    /// The ceiling on the bytes this direction may carry.
    pub fn max_size(&self) -> (r: u64)
        ensures
            r == self@.max_size,
    {
        self.max_size
    }

    /// Bytes written to the peer so far; never more than the ceiling.
    pub fn forwarded(&self) -> (r: u64)
        ensures
            r == self@.forwarded,
            r <= self@.max_size,
    {
        proof {
            use_type_invariant(self);
        }
        self.forwarded
    }

    /// The pending operation, or how the direction ended.
    pub fn phase(&self) -> (r: CopyPhase)
        ensures
            r == self@.phase,
    {
        self.phase
    }

    fn fail(self, error: TransferError) -> (r: (CopyState, CopyAction))
        ensures
            (r.0@, r.1@) == copy_failed(self@, error),
            copy_wf(r.0@),
    {
        proof {
            use_type_invariant(&self);
        }
        (
            CopyState {
                max_size: self.max_size,
                accepted: self.accepted,
                forwarded: self.forwarded,
                phase: CopyPhase::Failed { error },
                pending: self.pending,
            },
            CopyAction::Fail { error },
        )
    }
}

/// Advances one direction by what the caller observed and tells it what to
/// do next.
pub fn bounded_copy(state: CopyState, event: CopyEvent) -> (r: (CopyState, CopyAction))
    ensures
        (r.0@, r.1@) == copy_step(state@, event@),
        copy_wf(r.0@),
{
    proof {
        use_type_invariant(&state);
    }
    match (state.phase, event) {
        (CopyPhase::Finished, _) => (state, CopyAction::Succeed),
        (CopyPhase::Failed { error }, _) => (state, CopyAction::Fail { error }),
        (CopyPhase::Reading, CopyEvent::ReadDone { data }) => {
            let len: usize = data.len();
            if len == 0 {
                (
                    CopyState {
                        max_size: state.max_size,
                        accepted: state.accepted,
                        forwarded: state.forwarded,
                        phase: CopyPhase::Finished,
                        pending: state.pending,
                    },
                    CopyAction::Succeed,
                )
            } else if len as u64 > state.max_size - state.accepted {
                state.fail(TransferError::SizeLimitExceeded)
            } else {
                (
                    CopyState {
                        max_size: state.max_size,
                        accepted: state.accepted + len as u64,
                        forwarded: state.forwarded,
                        phase: CopyPhase::Writing,
                        pending: Ghost(data@),
                    },
                    CopyAction::Write { data },
                )
            }
        },
        (CopyPhase::Reading, CopyEvent::ReadFailed) => state.fail(TransferError::IoError),
        (CopyPhase::Reading, CopyEvent::ReadTimedOut) => state.fail(TransferError::IdleTimeout),
        (CopyPhase::Writing, CopyEvent::WriteDone) => (
            CopyState {
                max_size: state.max_size,
                accepted: state.accepted,
                forwarded: state.accepted,
                phase: CopyPhase::Reading,
                pending: Ghost(Seq::empty()),
            },
            CopyAction::Read,
        ),
        (CopyPhase::Writing, CopyEvent::WriteFailed) => state.fail(TransferError::IoError),
        (CopyPhase::Writing, CopyEvent::WriteTimedOut) => state.fail(TransferError::IdleTimeout),
        _ => state.fail(TransferError::IoError),
    }
}

/// Advances one direction as [`bounded_copy`] does and tells what the step
/// adds to the statistics: the bytes of a chunk once it is written.
pub fn bounded_copy_with_stats(state: CopyState, event: CopyEvent) -> (r: (
    CopyState,
    CopyAction,
    StatsDelta,
))
    ensures
        (r.0@, r.1@) == copy_step(state@, event@),
        copy_wf(r.0@),
        r.2 == (StatsDelta { bytes: bytes_forwarded(state@, event@), ..no_change() }),
{
    proof {
        use_type_invariant(&state);
    }
    let before = state.forwarded();
    let (next, action) = bounded_copy(state, event);
    let bytes = next.forwarded() - before;
    (next, action, StatsDelta::forwarded(bytes))
}

/// Advances one direction as [`bounded_copy`] does. Where a read failed and
/// the text of its error is TLS related, the warning to log comes with it.
/// `read_error` is read only when `event` reports a failed read.
pub fn bounded_copy_with_ssl_detection(
    state: CopyState,
    event: CopyEvent,
    read_error: &str,
    src_addr: Option<&str>,
    dst_addr: Option<&str>,
    direction: &str,
) -> (r: (CopyState, CopyAction, Option<Vec<String>>))
    ensures
        (r.0@, r.1@) == copy_step(state@, event@),
        copy_wf(r.0@),
        r.2 is Some == (state@.phase is Reading && event@ is ReadFailed && mentions_tls(
            lowercase(read_error@),
        )),
        r.2 matches Some(lines) ==> lines.deep_view() == transfer_warning(
            opt_view(src_addr),
            opt_view(dst_addr),
            direction@,
            read_error@,
        ),
{
    let failed_read = match (state.phase(), &event) {
        (CopyPhase::Reading, CopyEvent::ReadFailed) => true,
        _ => false,
    };
    let warning = if failed_read {
        analyze_transfer_error(src_addr, dst_addr, direction, read_error)
    } else {
        None
    };
    let (next, action) = bounded_copy(state, event);
    (next, action, warning)
}

/// The state of a direction after a run of events.
pub open spec fn copy_run(v: CopyView, events: Seq<CopyEventView>) -> CopyView
    decreases events.len(),
{
    if events.len() == 0 {
        v
    } else {
        copy_run(copy_step(v, events[0]).0, events.drop_first())
    }
}

/// All the bytes that the steps of a run admit, in the order they were read.
pub open spec fn run_received(v: CopyView, events: Seq<CopyEventView>) -> Seq<u8>
    decreases events.len(),
{
    if events.len() == 0 {
        Seq::empty()
    } else {
        admitted(v, events[0]) + run_received(copy_step(v, events[0]).0, events.drop_first())
    }
}

/// All the bytes that the steps of a run confirm as written, in the order
/// they were written.
pub open spec fn run_delivered(v: CopyView, events: Seq<CopyEventView>) -> Seq<u8>
    decreases events.len(),
{
    if events.len() == 0 {
        Seq::empty()
    } else {
        delivered(v, events[0]) + run_delivered(copy_step(v, events[0]).0, events.drop_first())
    }
}

/// A step keeps a direction well formed and its ceiling fixed, never takes
/// back a byte that was forwarded, and accounts for every byte: what was
/// pending and what it admits is what it delivers and what is pending after.
pub proof fn lemma_copy_step_keeps_wf(v: CopyView, event: CopyEventView)
    requires
        copy_wf(v),
    ensures
        copy_wf(copy_step(v, event).0),
        copy_step(v, event).0.max_size == v.max_size,
        v.forwarded <= copy_step(v, event).0.forwarded,
        v.pending + admitted(v, event) == delivered(v, event) + copy_step(v, event).0.pending,
        copy_step(v, event).0.forwarded == v.forwarded + delivered(v, event).len(),
        copy_step(v, event).0.accepted == v.accepted + admitted(v, event).len(),
{
}

/// The chunk that is to be written is the chunk that was read, unchanged.
pub proof fn lemma_chunk_is_unchanged(v: CopyView, event: CopyEventView)
    requires
        copy_wf(v),
    ensures
        copy_step(v, event).1 matches CopyActionView::Write { data } ==> {
            &&& event == (CopyEventView::ReadDone { data })
            &&& admitted(v, event) == data
            &&& copy_step(v, event).0.pending == data
        },
{
}

/// A read that would take the running total past the ceiling aborts the
/// direction, and nothing of that chunk is forwarded.
pub proof fn lemma_excess_aborts(v: CopyView, data: Seq<u8>)
    requires
        copy_wf(v),
        v.phase is Reading,
        v.accepted + data.len() > v.max_size,
    ensures
        copy_step(v, CopyEventView::ReadDone { data }) == copy_failed(
            v,
            TransferError::SizeLimitExceeded,
        ),
        admitted(v, CopyEventView::ReadDone { data }) == Seq::<u8>::empty(),
        bytes_forwarded(v, CopyEventView::ReadDone { data }) == 0,
{
}

/// A direction that has ended stays as it is, whatever is reported to it.
pub proof fn lemma_ended_stays(v: CopyView, event: CopyEventView)
    requires
        v.phase is Finished || v.phase is Failed,
    ensures
        copy_step(v, event).0 == v,
        !(copy_step(v, event).1 is Read),
        !(copy_step(v, event).1 is Write),
{
}

/// Whatever is reported to a direction, in whatever order: the bytes it has
/// forwarded never pass its ceiling, and they are the bytes it was given, in
/// the order it was given them, with nothing added, dropped or repeated.
/// What it was given and has not forwarded is what is still pending.
pub proof fn lemma_forwarded_in_order_within_ceiling(v: CopyView, events: Seq<CopyEventView>)
    requires
        copy_wf(v),
    ensures
        copy_wf(copy_run(v, events)),
        copy_run(v, events).max_size == v.max_size,
        copy_run(v, events).forwarded <= v.max_size,
        copy_run(v, events).forwarded == v.forwarded + run_delivered(v, events).len(),
        v.pending + run_received(v, events) == run_delivered(v, events) + copy_run(
            v,
            events,
        ).pending,
    decreases events.len(),
{
    if events.len() > 0 {
        lemma_copy_step_keeps_wf(v, events[0]);
        lemma_forwarded_in_order_within_ceiling(copy_step(v, events[0]).0, events.drop_first());
    }
}

/// From its start, what a direction has forwarded is a prefix of what it
/// was given.
pub proof fn lemma_forwarded_is_prefix(max_size: u64, events: Seq<CopyEventView>)
    ensures
        run_delivered(copy_start(max_size), events).is_prefix_of(
            run_received(copy_start(max_size), events),
        ),
        run_delivered(copy_start(max_size), events).len() <= max_size,
{
    lemma_forwarded_in_order_within_ceiling(copy_start(max_size), events);
}

} // verus!
