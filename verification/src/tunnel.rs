//! A tunnel: two directions copied side by side. The first failure of either
//! ends both; only a clean close of both is success.

use vstd::prelude::*;
use crate::relay::{
    admitted, bounded_copy_with_stats, bytes_forwarded, copy_start, copy_step, copy_wf,
    delivered, lemma_copy_step_keeps_wf, CopyAction, CopyActionView, CopyEvent, CopyEventView,
    CopyPhase, CopyState, CopyView, TransferError,
};
use crate::stats::{no_change, StatsDelta};

verus! {

/// One of the two directions of a tunnel.
#[derive(Clone, Copy, Debug, PartialEq, Eq, Structural)]
pub enum Direction {
    ClientToServer,
    ServerToClient,
}

/// The failure that ended a tunnel, tagged by the direction it came from.
#[derive(Clone, Copy, Debug, PartialEq, Eq, Structural)]
pub struct TunnelFailure {
    pub direction: Direction,
    pub error: TransferError,
}

/// What the caller is to do next.
#[derive(Debug, PartialEq, Eq)]
pub enum TunnelAction {
    /// Read the next chunk of `direction` from its source.
    Read { direction: Direction },
    /// Write all of `data` to the peer of `direction`.
    Write { direction: Direction, data: Vec<u8> },
    /// This direction closed cleanly; go on serving the other.
    Wait,
    /// Both directions closed cleanly: the tunnel succeeded.
    Succeed,
    /// Cancel what is pending on the other direction, tear both sockets
    /// down and report the failure.
    Abort { failure: TunnelFailure },
}

/// Mathematical value of a [`TunnelAction`].
pub enum TunnelActionView {
    Read { direction: Direction },
    Write { direction: Direction, data: Seq<u8> },
    Wait,
    Succeed,
    Abort { failure: TunnelFailure },
}

impl View for TunnelAction {
    type V = TunnelActionView;

    open spec fn view(&self) -> TunnelActionView {
        match self {
            TunnelAction::Read { direction } => TunnelActionView::Read { direction: *direction },
            TunnelAction::Write { direction, data } => TunnelActionView::Write {
                direction: *direction,
                data: data@,
            },
            TunnelAction::Wait => TunnelActionView::Wait,
            TunnelAction::Succeed => TunnelActionView::Succeed,
            TunnelAction::Abort { failure } => TunnelActionView::Abort { failure: *failure },
        }
    }
}

/// Mathematical value of a [`TunnelState`].
pub struct TunnelView {
    pub client_to_server: CopyView,
    pub server_to_client: CopyView,
    pub failure: Option<TunnelFailure>,
}

/// The other direction.
pub open spec fn opposite(direction: Direction) -> Direction {
    match direction {
        Direction::ClientToServer => Direction::ServerToClient,
        Direction::ServerToClient => Direction::ClientToServer,
    }
}

/// The copy state of one direction.
pub open spec fn side(v: TunnelView, direction: Direction) -> CopyView {
    match direction {
        Direction::ClientToServer => v.client_to_server,
        Direction::ServerToClient => v.server_to_client,
    }
}

/// `v` with the copy state of one direction replaced.
pub open spec fn with_side(v: TunnelView, direction: Direction, copy: CopyView) -> TunnelView {
    match direction {
        Direction::ClientToServer => TunnelView { client_to_server: copy, ..v },
        Direction::ServerToClient => TunnelView { server_to_client: copy, ..v },
    }
}

/// Both directions are well formed, and the tunnel has failed exactly when
/// one of them has: the one the failure names, with the error it names.
pub open spec fn tunnel_wf(v: TunnelView) -> bool {
    &&& copy_wf(v.client_to_server)
    &&& copy_wf(v.server_to_client)
    &&& match v.failure {
        Some(f) => side(v, f.direction).phase == (CopyPhase::Failed { error: f.error }),
        None => !(v.client_to_server.phase is Failed) && !(v.server_to_client.phase is Failed),
    }
}

/// A tunnel in which both directions wait for their first read.
pub open spec fn tunnel_start(max_size: u64) -> TunnelView {
    TunnelView {
        client_to_server: copy_start(max_size),
        server_to_client: copy_start(max_size),
        failure: None,
    }
}

/// What a direction's action means for the tunnel: the failure it brings,
/// if any, and what the caller is to do.
pub open spec fn settled(direction: Direction, action: CopyActionView, other_finished: bool) -> (
    Option<TunnelFailure>,
    TunnelActionView,
) {
    match action {
        CopyActionView::Read => (None, TunnelActionView::Read { direction }),
        CopyActionView::Write { data } => (None, TunnelActionView::Write { direction, data }),
        CopyActionView::Succeed => (
            None,
            if other_finished {
                TunnelActionView::Succeed
            } else {
                TunnelActionView::Wait
            },
        ),
        CopyActionView::Fail { error } => {
            let failure = TunnelFailure { direction, error };
            (Some(failure), TunnelActionView::Abort { failure })
        },
    }
}

/// One step of a tunnel: `event` is what was observed on `direction`.
///
/// A tunnel that has failed stays failed. Otherwise the direction takes its
/// own step and the other direction is left alone; its failure fails the
/// tunnel, and its clean close succeeds the tunnel once the other direction
/// has closed cleanly too.
pub open spec fn tunnel_step(v: TunnelView, direction: Direction, event: CopyEventView) -> (
    TunnelView,
    TunnelActionView,
) {
    match v.failure {
        Some(failure) => (v, TunnelActionView::Abort { failure }),
        None => {
            let (copy, action) = copy_step(side(v, direction), event);
            let (failure, next) = settled(
                direction,
                action,
                side(v, opposite(direction)).phase is Finished,
            );
            (TunnelView { failure, ..with_side(v, direction, copy) }, next)
        },
    }
}

/// The chunk that a step of a tunnel admits on `on`: nothing unless the
/// step is one of that direction in a tunnel that has not failed.
pub open spec fn tunnel_admitted(
    v: TunnelView,
    direction: Direction,
    event: CopyEventView,
    on: Direction,
) -> Seq<u8> {
    if v.failure is None && direction == on {
        admitted(side(v, on), event)
    } else {
        Seq::empty()
    }
}

/// The chunk that a step of a tunnel confirms as written on `on`.
pub open spec fn tunnel_delivered(
    v: TunnelView,
    direction: Direction,
    event: CopyEventView,
    on: Direction,
) -> Seq<u8> {
    if v.failure is None && direction == on {
        delivered(side(v, on), event)
    } else {
        Seq::empty()
    }
}

/// The number of bytes that a step of a tunnel confirms as written.
pub open spec fn tunnel_bytes(v: TunnelView, direction: Direction, event: CopyEventView) -> u64 {
    tunnel_delivered(v, direction, event, direction).len() as u64
}

/// The two directions of one tunnel.
pub struct TunnelState {
    client_to_server: CopyState,
    server_to_client: CopyState,
    failure: Option<TunnelFailure>,
}

impl View for TunnelState {
    type V = TunnelView;

    closed spec fn view(&self) -> TunnelView {
        TunnelView {
            client_to_server: self.client_to_server@,
            server_to_client: self.server_to_client@,
            failure: self.failure,
        }
    }
}

impl TunnelState {
    #[verifier::type_invariant]
    spec fn inv(self) -> bool {
        tunnel_wf(self@)
    }

    /// A tunnel whose directions each have the given ceiling and wait for
    /// their first read.
    pub fn new(max_size: u64) -> (state: TunnelState)
        ensures
            state@ == tunnel_start(max_size),
    {
        TunnelState {
            client_to_server: CopyState::new(max_size),
            server_to_client: CopyState::new(max_size),
            failure: None,
        }
    }

    /// The failure that ended the tunnel, if one did.
    pub fn failure(&self) -> (r: Option<TunnelFailure>)
        ensures
            r == self@.failure,
    {
        self.failure
    }

    /// Bytes written to the peer of `direction` so far.
    pub fn forwarded(&self, direction: Direction) -> (r: u64)
        ensures
            r == side(self@, direction).forwarded,
            r <= side(self@, direction).max_size,
    {
        match direction {
            Direction::ClientToServer => self.client_to_server.forwarded(),
            Direction::ServerToClient => self.server_to_client.forwarded(),
        }
    }

    /// Where `direction` stands.
    pub fn phase(&self, direction: Direction) -> (r: CopyPhase)
        ensures
            r == side(self@, direction).phase,
    {
        match direction {
            Direction::ClientToServer => self.client_to_server.phase(),
            Direction::ServerToClient => self.server_to_client.phase(),
        }
    }
}

fn settle(direction: Direction, action: CopyAction, other_finished: bool) -> (r: (
    Option<TunnelFailure>,
    TunnelAction,
))
    ensures
        (r.0, r.1@) == settled(direction, action@, other_finished),
{
    match action {
        CopyAction::Read => (None, TunnelAction::Read { direction }),
        CopyAction::Write { data } => (None, TunnelAction::Write { direction, data }),
        CopyAction::Succeed => (
            None,
            if other_finished {
                TunnelAction::Succeed
            } else {
                TunnelAction::Wait
            },
        ),
        CopyAction::Fail { error } => {
            let failure = TunnelFailure { direction, error };
            (Some(failure), TunnelAction::Abort { failure })
        },
    }
}

/// Advances a tunnel by what the caller observed on one direction, tells it
/// what to do next, and what the step adds to the statistics.
pub fn tunnel_fast(state: TunnelState, direction: Direction, event: CopyEvent) -> (r: (
    TunnelState,
    TunnelAction,
    StatsDelta,
))
    ensures
        (r.0@, r.1@) == tunnel_step(state@, direction, event@),
        tunnel_wf(r.0@),
        r.2 == (StatsDelta { bytes: tunnel_bytes(state@, direction, event@), ..no_change() }),
{
    proof {
        use_type_invariant(&state);
    }
    if let Some(failure) = state.failure {
        return (state, TunnelAction::Abort { failure }, StatsDelta::none());
    }
    let TunnelState { client_to_server, server_to_client, failure } = state;
    match direction {
        Direction::ClientToServer => {
            let other_finished = match server_to_client.phase() {
                CopyPhase::Finished => true,
                _ => false,
            };
            let (copy, action, delta) = bounded_copy_with_stats(client_to_server, event);
            let (failure, next) = settle(direction, action, other_finished);
            (TunnelState { client_to_server: copy, server_to_client, failure }, next, delta)
        },
        Direction::ServerToClient => {
            let other_finished = match client_to_server.phase() {
                CopyPhase::Finished => true,
                _ => false,
            };
            let (copy, action, delta) = bounded_copy_with_stats(server_to_client, event);
            let (failure, next) = settle(direction, action, other_finished);
            (TunnelState { client_to_server, server_to_client: copy, failure }, next, delta)
        },
    }
}

/// A step keeps a tunnel well formed and leaves the other direction as it
/// was.
pub proof fn lemma_tunnel_step_keeps_wf(v: TunnelView, direction: Direction, event: CopyEventView)
    requires
        tunnel_wf(v),
    ensures
        tunnel_wf(tunnel_step(v, direction, event).0),
        side(tunnel_step(v, direction, event).0, opposite(direction)) == side(
            v,
            opposite(direction),
        ),
{
    lemma_copy_step_keeps_wf(side(v, direction), event);
}

/// A direction whose read or write runs into the idle timeout aborts the
/// tunnel, wherever the other direction stands, and the tunnel stays aborted
/// with that failure whatever is reported afterwards.
pub proof fn lemma_idle_timeout_aborts(
    v: TunnelView,
    direction: Direction,
    later_direction: Direction,
    later_event: CopyEventView,
)
    requires
        tunnel_wf(v),
        v.failure is None,
    ensures
        ({
            let failure = TunnelFailure { direction, error: TransferError::IdleTimeout };
            let read_timeout = tunnel_step(v, direction, CopyEventView::ReadTimedOut);
            let write_timeout = tunnel_step(v, direction, CopyEventView::WriteTimedOut);
            &&& side(v, direction).phase is Reading ==> {
                &&& read_timeout.1 == (TunnelActionView::Abort { failure })
                &&& read_timeout.0.failure == Some(failure)
                &&& tunnel_step(read_timeout.0, later_direction, later_event) == (
                    read_timeout.0,
                    TunnelActionView::Abort { failure },
                )
            }
            &&& side(v, direction).phase is Writing ==> {
                &&& write_timeout.1 == (TunnelActionView::Abort { failure })
                &&& write_timeout.0.failure == Some(failure)
                &&& tunnel_step(write_timeout.0, later_direction, later_event) == (
                    write_timeout.0,
                    TunnelActionView::Abort { failure },
                )
            }
        }),
{
}

/// A tunnel succeeds only when both directions have closed cleanly, and it
/// fails as soon as either direction fails.
pub proof fn lemma_tunnel_outcome(v: TunnelView, direction: Direction, event: CopyEventView)
    requires
        tunnel_wf(v),
    ensures
        ({
            let (next, action) = tunnel_step(v, direction, event);
            &&& action is Succeed ==> next.client_to_server.phase is Finished
                && next.server_to_client.phase is Finished && next.failure is None
            &&& (action is Abort) == (next.failure is Some)
            &&& v.failure is None && copy_step(side(v, direction), event).1 is Fail
                ==> action is Abort
        }),
{
}

/// One observation on a tunnel: the direction and what happened on it.
pub struct Observation {
    pub direction: Direction,
    pub event: CopyEventView,
}

/// The tunnel after a run of observations.
pub open spec fn tunnel_run(v: TunnelView, run: Seq<Observation>) -> TunnelView
    decreases run.len(),
{
    if run.len() == 0 {
        v
    } else {
        tunnel_run(tunnel_step(v, run[0].direction, run[0].event).0, run.drop_first())
    }
}

/// The bytes that the steps of a run add to the statistics, all together.
pub open spec fn tunnel_run_bytes(v: TunnelView, run: Seq<Observation>) -> int
    decreases run.len(),
{
    if run.len() == 0 {
        0
    } else {
        tunnel_bytes(v, run[0].direction, run[0].event) + tunnel_run_bytes(
            tunnel_step(v, run[0].direction, run[0].event).0,
            run.drop_first(),
        )
    }
}

/// All the bytes that a run admits on `on`, in the order they were read.
pub open spec fn tunnel_run_received(v: TunnelView, run: Seq<Observation>, on: Direction) -> Seq<
    u8,
>
    decreases run.len(),
{
    if run.len() == 0 {
        Seq::empty()
    } else {
        tunnel_admitted(v, run[0].direction, run[0].event, on) + tunnel_run_received(
            tunnel_step(v, run[0].direction, run[0].event).0,
            run.drop_first(),
            on,
        )
    }
}

/// All the bytes that a run confirms as written on `on`, in the order they
/// were written.
pub open spec fn tunnel_run_delivered(v: TunnelView, run: Seq<Observation>, on: Direction) -> Seq<
    u8,
>
    decreases run.len(),
{
    if run.len() == 0 {
        Seq::empty()
    } else {
        tunnel_delivered(v, run[0].direction, run[0].event, on) + tunnel_run_delivered(
            tunnel_step(v, run[0].direction, run[0].event).0,
            run.drop_first(),
            on,
        )
    }
}

/// Over any run, what a tunnel adds to the statistics is exactly what its
/// two directions forwarded, and neither direction passes its ceiling.
pub proof fn lemma_counted_bytes_are_forwarded_bytes(v: TunnelView, run: Seq<Observation>)
    requires
        tunnel_wf(v),
    ensures
        tunnel_wf(tunnel_run(v, run)),
        tunnel_run_bytes(v, run) == (tunnel_run(v, run).client_to_server.forwarded
            - v.client_to_server.forwarded) + (tunnel_run(v, run).server_to_client.forwarded
            - v.server_to_client.forwarded),
        tunnel_run(v, run).client_to_server.forwarded <= v.client_to_server.max_size,
        tunnel_run(v, run).server_to_client.forwarded <= v.server_to_client.max_size,
    decreases run.len(),
{
    if run.len() > 0 {
        let next = tunnel_step(v, run[0].direction, run[0].event).0;
        lemma_tunnel_step_keeps_wf(v, run[0].direction, run[0].event);
        lemma_counted_bytes_are_forwarded_bytes(next, run.drop_first());
    }
}

/// Over any run and on either direction: what was forwarded is what was read
/// on that same direction, in the order it was read, with nothing added,
/// dropped or repeated, and nothing of the other direction mixed in. What
/// was read and not forwarded is what is still pending there.
pub proof fn lemma_directions_do_not_mix(v: TunnelView, run: Seq<Observation>, on: Direction)
    requires
        tunnel_wf(v),
    ensures
        side(v, on).pending + tunnel_run_received(v, run, on) == tunnel_run_delivered(v, run, on)
            + side(tunnel_run(v, run), on).pending,
    decreases run.len(),
{
    if run.len() > 0 {
        let next = tunnel_step(v, run[0].direction, run[0].event).0;
        lemma_tunnel_step_keeps_wf(v, run[0].direction, run[0].event);
        lemma_copy_step_keeps_wf(side(v, on), run[0].event);
        lemma_directions_do_not_mix(next, run.drop_first(), on);
    }
}

} // verus!
