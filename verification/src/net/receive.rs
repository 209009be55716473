//! The client's receive loop: how each message from the match server changes
//! what the client keeps, and what holds over a whole run of messages.
use vstd::prelude::*;
use crate::net::client::{snapshot_newer, ConnState, WelcomeSeat};
use crate::net::proto::{seq_ahead, HALF_SEQUENCE};

verus! {

/// A message from the match server, as the client's receive loop reads it (after
/// it dropped datagrams from other addresses and those that do not decode).
pub enum Incoming {
    Welcome(WelcomeSeat),
    Rejected(String),
    /// A snapshot, by its tick.
    Snapshot(u32),
    Finished { result: String, score: [u32; 2] },
}

/// What the receive loop keeps between messages.
pub struct Received {
    pub conn: ConnState,
    /// Tick of the newest snapshot kept.
    pub latest: Option<u32>,
    /// A snapshot arrived that has not been applied yet.
    pub dirty: bool,
    pub finished: Option<(String, [u32; 2])>,
    /// When the server was last heard from, in milliseconds.
    pub last_heard: u64,
}

/// One message read at `now_ms`: a `Welcome` or `Rejected` counts only before a
/// seat is granted; a snapshot is kept only when newer than the one kept (or the
/// first); the result of a finished match is kept.
pub open spec fn received_step(r: Received, m: Incoming, now_ms: u64) -> Received {
    match m {
        Incoming::Welcome(seat) => if r.conn is Welcomed {
            r
        } else {
            Received { conn: ConnState::Welcomed(seat), last_heard: now_ms, ..r }
        },
        Incoming::Rejected(reason) => if r.conn is Welcomed {
            r
        } else {
            Received { conn: ConnState::Rejected(reason), ..r }
        },
        Incoming::Snapshot(tick) => if (match r.latest {
            Some(old) => seq_ahead(tick, old) < HALF_SEQUENCE,
            None => true,
        }) {
            Received { latest: Some(tick), dirty: true, last_heard: now_ms, ..r }
        } else {
            r
        },
        Incoming::Finished { result, score } => Received {
            finished: Some((result, score)),
            last_heard: now_ms,
            ..r
        },
    }
}

/// Reads one message from the match server.
pub fn receive(state: &mut Received, message: Incoming, now_ms: u64)
    ensures
        *final(state) == received_step(*old(state), message, now_ms),
{
    match message {
        Incoming::Welcome(seat) => {
            if !state.conn.welcomed() {
                state.conn = ConnState::Welcomed(seat);
                state.last_heard = now_ms;
            }
        },
        Incoming::Rejected(reason) => {
            if !state.conn.welcomed() {
                state.conn = ConnState::Rejected(reason);
            }
        },
        Incoming::Snapshot(tick) => {
            if snapshot_newer(tick, state.latest) {
                state.latest = Some(tick);
                state.dirty = true;
                state.last_heard = now_ms;
            }
        },
        Incoming::Finished { result, score } => {
            state.finished = Some((result, score));
            state.last_heard = now_ms;
        },
    }
}

/// The state after reading `messages` (each with the time it was read), in order.
pub open spec fn received_run(r: Received, messages: Seq<(Incoming, u64)>) -> Received
    decreases messages.len(),
{
    if messages.len() == 0 {
        r
    } else {
        received_step(received_run(r, messages.drop_last()), messages.last().0, messages.last().1)
    }
}

/// Over any run of messages: a seat, once granted, is never replaced or lost;
/// a finished match stays finished; and the kept snapshot is only ever replaced
/// by a newer one, never by an older tick.
pub proof fn lemma_receive_run(r: Received, messages: Seq<(Incoming, u64)>, k: int)
    requires
        0 <= k < messages.len(),
    ensures
        r.conn is Welcomed ==> received_run(r, messages).conn == r.conn,
        r.finished is Some ==> received_run(r, messages).finished is Some,
        ({
            let before = received_run(r, messages.take(k)).latest;
            let after = received_run(r, messages.take(k + 1)).latest;
            after == before || (after matches Some(t) && (before matches Some(o) ==> seq_ahead(t, o)
                < HALF_SEQUENCE))
        }),
    decreases messages.len(),
{
    assert(messages.take(k + 1).drop_last() =~= messages.take(k));
    if messages.len() > 1 {
        let k2 = if k < messages.len() - 1 { k } else { 0 };
        lemma_receive_run(r, messages.drop_last(), k2);
    }
    if messages.len() == 1 {
        assert(messages.drop_last().len() == 0);
    }
}

} // verus!
