//! The plain-text handshake that opens a logical channel: the client sends
//! `CONNECT <port>\n` and waits for a line containing `OK` within a bounded
//! retry budget.
//!
//! The connection itself, the timeouts around the exchange, and the reads are
//! a caller's business; the caller hands in what each read returned, and the
//! functions here decide what the bytes mean and when to give up.

use vstd::prelude::*;

verus! {

/// How many reads the handshake makes before giving up.
pub const HANDSHAKE_RETRY_BUDGET: usize = 10;

/// Read timeout applied for the duration of the handshake, in seconds.
pub const CONNECT_TIMEOUT_SECS: u64 = 30;

/// Write timeout applied for the duration of the handshake, in seconds.
pub const HANDSHAKE_WRITE_TIMEOUT_SECS: u64 = 5;

/// Handshake timeout of the line-oriented hypervisor-socket variant, in
/// seconds.
pub const VSOCK_HANDSHAKE_TIMEOUT_SECS: u64 = 5;

/// The decimal digits of `n`, most significant first, as ASCII bytes.
pub open spec fn dec_digits(n: nat) -> Seq<u8>
    decreases n,
{
    if n < 10 {
        seq![(48 + n) as u8]
    } else {
        dec_digits(n / 10).push((48 + n % 10) as u8)
    }
}

/// The exact bytes of the handshake request for a service port.
pub open spec fn connect_line_spec(port: nat) -> Seq<u8> {
    seq![
        'C' as u8,
        'O' as u8,
        'N' as u8,
        'N' as u8,
        'E' as u8,
        'C' as u8,
        'T' as u8,
        ' ' as u8,
    ] + dec_digits(port) + seq!['\n' as u8]
}

/// Appends the decimal digits of `n` to `out`.
fn push_decimal(out: &mut Vec<u8>, n: u32)
    ensures
        final(out)@ == old(out)@ + dec_digits(n as nat),
    decreases n,
{
    if n >= 10 {
        push_decimal(out, n / 10);
    }
    out.push(48 + (n % 10) as u8);
    proof {
        assert(final(out)@ =~= old(out)@ + dec_digits(n as nat));
    }
}

/// Builds the request line `CONNECT <port>\n` sent to open a channel to the
/// given in-sandbox service port.
pub fn connect_line(port: u32) -> (r: Vec<u8>)
    ensures
        r@ == connect_line_spec(port as nat),
{
    let mut line: Vec<u8> = Vec::new();
    line.push(67u8);
    line.push(79u8);
    line.push(78u8);
    line.push(78u8);
    line.push(69u8);
    line.push(67u8);
    line.push(84u8);
    line.push(32u8);
    push_decimal(&mut line, port);
    line.push(10u8);
    proof {
        assert(line@ =~= connect_line_spec(port as nat));
    }
    line
}

/// The response contains the affirmative keyword `OK` somewhere.
pub open spec fn contains_ok_spec(data: Seq<u8>) -> bool {
    exists|i: int|
        0 <= i && i + 1 < data.len() && (#[trigger] data[i]) == 'O' as u8 && data[i + 1] == 'K'
            as u8
}

/// Scans a received chunk for the affirmative keyword `OK`.
pub fn contains_ok(data: &[u8]) -> (r: bool)
    ensures
        r == contains_ok_spec(data@),
{
    let n: usize = data.len();
    if n < 2 {
        return false;
    }
    let mut i: usize = 0;
    while i + 1 < n
        invariant
            n == data@.len(),
            i < n,
            forall|j: int|
                0 <= j < i ==> !((#[trigger] data@[j]) == 'O' as u8 && data@[j + 1] == 'K' as u8),
        decreases n - i,
    {
        if data[i] == 79u8 && data[i + 1] == 75u8 {
            return true;
        }
        i = i + 1;
    }
    false
}

/// What one line of handshake response means in the line-oriented variant:
/// nothing came, the channel was accepted, or the request was rejected.
pub enum HandshakeResponse {
    Empty,
    Accepted,
    Rejected,
}

/// Classifies the single response line of the line-oriented variant: an empty
/// line means the peer said nothing, a line starting with `OK` accepts the
/// channel, anything else rejects it.
pub fn classify_response(line: &[u8]) -> (r: HandshakeResponse)
    ensures
        r == (if line@.len() == 0 {
            HandshakeResponse::Empty
        } else if line@.len() >= 2 && line@[0] == 'O' as u8 && line@[1] == 'K' as u8 {
            HandshakeResponse::Accepted
        } else {
            HandshakeResponse::Rejected
        }),
{
    let n: usize = line.len();
    if n == 0 {
        HandshakeResponse::Empty
    } else if n >= 2 && line[0] == 79u8 && line[1] == 75u8 {
        HandshakeResponse::Accepted
    } else {
        HandshakeResponse::Rejected
    }
}

/// What one read during the handshake wait returned: a chunk of bytes,
/// nothing yet, a transient would-block condition, or a hard failure.
pub enum ReadEvent {
    Data(Vec<u8>),
    Empty,
    WouldBlock,
    Failed,
}

/// How the handshake wait ended.
pub enum HandshakeOutcome {
    Accepted,
    Exhausted,
    TransportError,
}

/// The outcome of waiting on a sequence of reads with a retry budget: the
/// first chunk containing `OK` accepts; a hard read failure aborts; an
/// exhausted budget, or running out of reads, gives up.
pub open spec fn handshake_outcome_spec(events: Seq<ReadEvent>, budget: nat) -> HandshakeOutcome
    decreases budget,
{
    if budget == 0 || events.len() == 0 {
        HandshakeOutcome::Exhausted
    } else {
        match events[0] {
            ReadEvent::Failed => HandshakeOutcome::TransportError,
            ReadEvent::Data(d) => if contains_ok_spec(d@) {
                HandshakeOutcome::Accepted
            } else {
                handshake_outcome_spec(events.drop_first(), (budget - 1) as nat)
            },
            _ => handshake_outcome_spec(events.drop_first(), (budget - 1) as nat),
        }
    }
}

/// What to do after one read during the handshake wait.
pub enum HandshakeStep {
    Accepted,
    TransportError,
    Retry,
}

/// Decides what one read means for the handshake: a chunk containing `OK`
/// accepts the channel, a hard failure aborts, anything else spends one more
/// attempt of the budget.
pub fn handshake_step(event: &ReadEvent) -> (s: HandshakeStep)
    ensures
        s == (match event {
            ReadEvent::Failed => HandshakeStep::TransportError,
            ReadEvent::Data(d) => if contains_ok_spec(d@) {
                HandshakeStep::Accepted
            } else {
                HandshakeStep::Retry
            },
            _ => HandshakeStep::Retry,
        }),
{
    match event {
        ReadEvent::Failed => HandshakeStep::TransportError,
        ReadEvent::Data(d) => {
            if contains_ok(d.as_slice()) {
                HandshakeStep::Accepted
            } else {
                HandshakeStep::Retry
            }
        },
        _ => HandshakeStep::Retry,
    }
}

fn run_handshake_from(events: &Vec<ReadEvent>, i: usize, budget: usize) -> (r: HandshakeOutcome)
    requires
        i <= events@.len(),
    ensures
        r == handshake_outcome_spec(events@.skip(i as int), budget as nat),
    decreases budget,
{
    if budget == 0 || i == events.len() {
        return HandshakeOutcome::Exhausted;
    }
    proof {
        assert(events@.skip(i as int)[0] == events@[i as int]);
        assert(events@.skip(i as int).drop_first() =~= events@.skip(i + 1));
    }
    match &events[i] {
        ReadEvent::Failed => HandshakeOutcome::TransportError,
        ReadEvent::Data(d) => {
            if contains_ok(d.as_slice()) {
                HandshakeOutcome::Accepted
            } else {
                run_handshake_from(events, i + 1, budget - 1)
            }
        },
        _ => run_handshake_from(events, i + 1, budget - 1),
    }
}

/// Replays a whole sequence of reads against the retry budget and reports how
/// the handshake wait ends.
pub fn run_handshake(events: &Vec<ReadEvent>, budget: usize) -> (r: HandshakeOutcome)
    ensures
        r == handshake_outcome_spec(events@, budget as nat),
{
    proof {
        assert(events@.skip(0) =~= events@);
    }
    run_handshake_from(events, 0, budget)
}

/// A peer that answers with a chunk containing `OK` within the budget, with
/// no hard failure before it, is accepted.
pub proof fn lemma_handshake_accepts(events: Seq<ReadEvent>, budget: nat, i: int)
    requires
        0 <= i < budget,
        i < events.len(),
        events[i] matches ReadEvent::Data(d) && contains_ok_spec(d@),
        forall|j: int| 0 <= j < i ==> !(events[j] is Failed),
    ensures
        handshake_outcome_spec(events, budget) == HandshakeOutcome::Accepted,
    decreases i,
{
    if i > 0 {
        match events[0] {
            ReadEvent::Data(d0) => {
                if !contains_ok_spec(d0@) {
                    lemma_handshake_accepts(events.drop_first(), (budget - 1) as nat, i - 1);
                }
            },
            _ => {
                lemma_handshake_accepts(events.drop_first(), (budget - 1) as nat, i - 1);
            },
        }
    }
}

/// A peer that never answers — every read comes back empty or would-block —
/// exhausts the budget and the handshake gives up.
pub proof fn lemma_handshake_unresponsive(events: Seq<ReadEvent>, budget: nat)
    requires
        forall|j: int| 0 <= j < events.len() ==> (events[j] is Empty || events[j] is WouldBlock),
    ensures
        handshake_outcome_spec(events, budget) == HandshakeOutcome::Exhausted,
    decreases budget,
{
    if budget > 0 && events.len() > 0 {
        lemma_handshake_unresponsive(events.drop_first(), (budget - 1) as nat);
    }
}

} // verus!
