//! The duplex relay: two independent copy loops, one per direction, each
//! reading bounded chunks and writing them through verbatim until the peer
//! closes, a hard error strikes, or cancellation is requested.
//!
//! The blocking reads and writes are a caller's business.  The caller reports
//! what each read returned and this module decides, event by event, whether
//! to forward the chunk, retry a transient condition, or stop — and, over a
//! whole sequence of events, exactly which bytes come through: everything
//! received before the first terminating event, in order, nothing else.

use vstd::prelude::*;

verus! {

/// What one read in a copy loop returned: a chunk of bytes, end of the
/// source, a transient interruption or would-block condition, or a hard
/// failure.
pub enum RelayEvent {
    Chunk(Vec<u8>),
    Closed,
    Interrupted,
    WouldBlock,
    Failed,
}

/// What a copy loop does with one event.
pub enum RelayAction {
    Forward,
    Retry,
    Stop,
}

/// How a copy loop ended.
pub enum RelayEnd {
    PeerClosed,
    Cancelled,
    Failed,
}

/// The events that end a copy loop.
pub open spec fn stops_relay(event: RelayEvent) -> bool {
    event is Closed || event is Failed
}

/// Decides one iteration of a copy loop: cancellation stops it before
/// anything else, a chunk is forwarded verbatim, a transient condition is
/// retried in place, end-of-source and hard failures stop it.
pub fn relay_step(cancelled: bool, event: &RelayEvent) -> (a: RelayAction)
    ensures
        a == (if cancelled {
            RelayAction::Stop
        } else {
            match event {
                RelayEvent::Chunk(_) => RelayAction::Forward,
                RelayEvent::Interrupted => RelayAction::Retry,
                RelayEvent::WouldBlock => RelayAction::Retry,
                RelayEvent::Closed => RelayAction::Stop,
                RelayEvent::Failed => RelayAction::Stop,
            }
        }),
{
    if cancelled {
        return RelayAction::Stop;
    }
    match event {
        RelayEvent::Chunk(_) => RelayAction::Forward,
        RelayEvent::Interrupted => RelayAction::Retry,
        RelayEvent::WouldBlock => RelayAction::Retry,
        RelayEvent::Closed => RelayAction::Stop,
        RelayEvent::Failed => RelayAction::Stop,
    }
}

/// The bytes a copy loop forwards when it observes these events in order:
/// every chunk before the first terminating event, concatenated.
pub open spec fn relayed_bytes_spec(events: Seq<RelayEvent>) -> Seq<u8>
    decreases events.len(),
{
    if events.len() == 0 {
        Seq::empty()
    } else {
        match events[0] {
            RelayEvent::Chunk(c) => c@ + relayed_bytes_spec(events.drop_first()),
            RelayEvent::Closed => Seq::empty(),
            RelayEvent::Failed => Seq::empty(),
            _ => relayed_bytes_spec(events.drop_first()),
        }
    }
}

/// How a copy loop observing these events ends, if it ends.
pub open spec fn relay_end_spec(events: Seq<RelayEvent>) -> Option<RelayEnd>
    decreases events.len(),
{
    if events.len() == 0 {
        None
    } else {
        match events[0] {
            RelayEvent::Closed => Some(RelayEnd::PeerClosed),
            RelayEvent::Failed => Some(RelayEnd::Failed),
            _ => relay_end_spec(events.drop_first()),
        }
    }
}

/// The concatenation of every chunk among the events.
pub open spec fn chunk_bytes(events: Seq<RelayEvent>) -> Seq<u8>
    decreases events.len(),
{
    if events.len() == 0 {
        Seq::empty()
    } else {
        match events[0] {
            RelayEvent::Chunk(c) => c@ + chunk_bytes(events.drop_first()),
            _ => chunk_bytes(events.drop_first()),
        }
    }
}

fn run_relay_from(events: &Vec<RelayEvent>, i: usize) -> (r: (Vec<u8>, Option<RelayEnd>))
    requires
        i <= events@.len(),
    ensures
        r.0@ == relayed_bytes_spec(events@.skip(i as int)),
        r.1 == relay_end_spec(events@.skip(i as int)),
    decreases events@.len() - i,
{
    if i == events.len() {
        let out: Vec<u8> = Vec::new();
        proof {
            assert(events@.skip(i as int).len() == 0);
            assert(out@ =~= relayed_bytes_spec(events@.skip(i as int)));
        }
        return (out, None);
    }
    proof {
        assert(events@.skip(i as int)[0] == events@[i as int]);
        assert(events@.skip(i as int).drop_first() =~= events@.skip(i + 1));
    }
    match &events[i] {
        RelayEvent::Chunk(c) => {
            let (mut rest, end) = run_relay_from(events, i + 1);
            let mut out: Vec<u8> = Vec::new();
            let m: usize = c.len();
            let mut j: usize = 0;
            while j < m
                invariant
                    j <= m,
                    m == c@.len(),
                    out@ == c@.take(j as int),
                decreases m - j,
            {
                out.push(c[j]);
                proof {
                    assert(out@ =~= c@.take(j + 1));
                }
                j = j + 1;
            }
            proof {
                assert(c@.take(m as int) =~= c@);
            }
            out.append(&mut rest);
            (out, end)
        },
        RelayEvent::Closed => {
            let out: Vec<u8> = Vec::new();
            proof {
                assert(out@ =~= relayed_bytes_spec(events@.skip(i as int)));
            }
            (out, Some(RelayEnd::PeerClosed))
        },
        RelayEvent::Failed => {
            let out: Vec<u8> = Vec::new();
            proof {
                assert(out@ =~= relayed_bytes_spec(events@.skip(i as int)));
            }
            (out, Some(RelayEnd::Failed))
        },
        _ => run_relay_from(events, i + 1),
    }
}

/// Replays one copy loop over a sequence of observed events: the forwarded
/// bytes are exactly the chunks before the first terminating event, in
/// order, and the second component tells how the loop ended.
pub fn run_relay(events: &Vec<RelayEvent>) -> (r: (Vec<u8>, Option<RelayEnd>))
    ensures
        r.0@ == relayed_bytes_spec(events@),
        r.1 == relay_end_spec(events@),
{
    proof {
        assert(events@.skip(0) =~= events@);
    }
    run_relay_from(events, 0)
}

/// When the source closes after a run of non-terminating events, the loop
/// ends on the closure and forwards exactly the bytes received before it —
/// no truncation, no duplication, order kept.
pub proof fn lemma_relay_delivers_exactly(events: Seq<RelayEvent>, k: int)
    requires
        0 <= k < events.len(),
        events[k] is Closed,
        forall|j: int| 0 <= j < k ==> !stops_relay(#[trigger] events[j]),
    ensures
        relayed_bytes_spec(events) == chunk_bytes(events.take(k)),
        relay_end_spec(events) == Some(RelayEnd::PeerClosed),
    decreases k,
{
    if k == 0 {
        assert(chunk_bytes(events.take(0)) =~= Seq::<u8>::empty());
    } else {
        let rest = events.drop_first();
        assert(forall|j: int| 0 <= j < k - 1 ==> !stops_relay(#[trigger] rest[j]));
        lemma_relay_delivers_exactly(rest, k - 1);
        assert(events.take(k)[0] == events[0]);
        assert(events.take(k).drop_first() =~= rest.take(k - 1));
    }
}

/// How the whole session ended, for exit reporting.
pub enum SessionOutcome {
    Completed,
    RemoteClosed,
    LocalClosed,
    Interrupted,
    Failed,
}

/// Combines how the two copy loops ended and whether the user interrupted
/// into the session's outcome: an interrupt wins, then any hard failure,
/// then whichever side closed.
pub fn session_outcome(upstream: &RelayEnd, downstream: &RelayEnd, interrupted: bool) -> (o:
    SessionOutcome)
    ensures
        o == (if interrupted {
            SessionOutcome::Interrupted
        } else if upstream is Failed || downstream is Failed {
            SessionOutcome::Failed
        } else if downstream is PeerClosed {
            SessionOutcome::RemoteClosed
        } else if upstream is PeerClosed {
            SessionOutcome::LocalClosed
        } else {
            SessionOutcome::Completed
        }),
{
    if interrupted {
        SessionOutcome::Interrupted
    } else if matches!(upstream, RelayEnd::Failed) || matches!(downstream, RelayEnd::Failed) {
        SessionOutcome::Failed
    } else if matches!(downstream, RelayEnd::PeerClosed) {
        SessionOutcome::RemoteClosed
    } else if matches!(upstream, RelayEnd::PeerClosed) {
        SessionOutcome::LocalClosed
    } else {
        SessionOutcome::Completed
    }
}

} // verus!
