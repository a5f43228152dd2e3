use vstd::prelude::*;
use vstd::string::StringExecFns;

use crate::decimal::decimal_chars;
use crate::decimal::decimal_string;
use crate::error::CapViCamError;
use crate::error::ErrorKind;

verus! {

/// The HTTP response preamble, written once per connection before any frame.
pub open spec fn preamble_chars() -> Seq<char> {
    "HTTP/1.0 200 OK\r\nContent-Type: multipart/x-mixed-replace;boundary=mjpegstream\r\n\r\n"@
}

/// The HTTP response preamble, written once per connection before any frame.
pub fn preamble() -> (r: &'static str)
    ensures
        r@ == preamble_chars(),
{
    "HTTP/1.0 200 OK\r\nContent-Type: multipart/x-mixed-replace;boundary=mjpegstream\r\n\r\n"
}

/// The header of one multipart part carrying a frame of `len` bytes; the raw
/// frame bytes follow it on the wire, and no closing boundary is ever sent.
pub open spec fn part_header_chars(len: nat) -> Seq<char> {
    "--mjpegstream\r\nContent-Type: image/jpeg\r\nContent-Length: "@ + decimal_chars(len)
        + "\r\n\r\n"@
}

/// Render the header of one multipart part for a frame of `len` bytes.
pub fn part_header(len: usize) -> (r: String)
    ensures
        r@ == part_header_chars(len as nat),
{
    let mut s = String::from_str("--mjpegstream\r\nContent-Type: image/jpeg\r\nContent-Length: ");
    let digits = decimal_string(len);
    s.append(digits.as_str());
    s.append("\r\n\r\n");
    s
}

/// Whether one poll emits a part: exactly when the slot's sequence number
/// differs from the last sequence this session saw.
pub open spec fn poll_emits(seen: nat, sequence: nat) -> bool {
    sequence != seen
}

/// The last-seen sequence number after one poll.
pub open spec fn poll_next_seen(seen: nat, sequence: nat) -> nat {
    if sequence != seen {
        sequence
    } else {
        seen
    }
}

/// One network client's state: the last slot sequence number it has seen
/// (0 until its first emission, so the first published frame — whose
/// sequence is at least 1 — is always emitted once captured) and whether
/// its connection is still open. The socket itself, the poll-interval sleep
/// and the race against cancellation live outside this crate; every
/// decision about what to send and when to stop is taken here.
pub struct StreamSession {
    last_seen: usize,
    active: bool,
}

impl StreamSession {
    /// The last slot sequence number this session has seen.
    pub closed spec fn seen(&self) -> nat {
        self.last_seen as nat
    }

    /// Whether the session is still running.
    pub closed spec fn is_active(&self) -> bool {
        self.active
    }

    /// A fresh session for one accepted connection.
    pub fn new() -> (r: StreamSession)
        ensures
            r.seen() == 0,
            r.is_active(),
    {
        StreamSession { last_seen: 0, active: true }
    }

    /// Whether the session is still running, for the caller driving it.
    pub fn is_session_active(&self) -> (r: bool)
        ensures
            r == self.is_active(),
    {
        self.active
    }

    /// One poll of the shared slot's snapshot `(sequence, data)`. If the
    /// sequence differs from the last one seen, the part to write — header
    /// and frame bytes — is returned and the sequence is remembered; a
    /// session that polls too slowly thus silently skips frames, never
    /// queues them. If nothing changed, nothing is returned and the caller
    /// should sleep one poll interval before polling again.
    pub fn poll(&mut self, sequence: usize, data: &Vec<u8>) -> (r: Option<(String, Vec<u8>)>)
        requires
            old(self).is_active(),
        ensures
            final(self).is_active(),
            final(self).seen() == poll_next_seen(old(self).seen(), sequence as nat),
            !poll_emits(old(self).seen(), sequence as nat) ==> r is None,
            poll_emits(old(self).seen(), sequence as nat) ==> (r matches Some(part)
                && part.0@ == part_header_chars(data@.len()) && part.1@ == data@),
    {
        if sequence != self.last_seen {
            self.last_seen = sequence;
            Some((part_header(data.len()), data.clone()))
        } else {
            None
        }
    }

    /// Record the outcome of writing a part to the client socket: any write
    /// failure (disconnect, reset) closes the session at once — expected,
    /// frequent, and contained entirely within this session.
    pub fn on_write_result(&mut self, ok: bool)
        ensures
            final(self).is_active() == (old(self).is_active() && ok),
            final(self).seen() == old(self).seen(),
    {
        if !ok {
            self.active = false;
        }
    }

    /// Cancellation closes the session without completing the current poll
    /// cycle.
    pub fn on_cancelled(&mut self)
        ensures
            !final(self).is_active(),
            final(self).seen() == old(self).seen(),
    {
        self.active = false;
    }
}

/// The sequence numbers a session emits over a run of polls, given the slot
/// sequence number observed at each poll and the last one seen beforehand.
pub open spec fn emitted_sequences(seen: nat, observed: Seq<nat>) -> Seq<nat>
    decreases observed.len(),
{
    if observed.len() == 0 {
        Seq::empty()
    } else if poll_emits(seen, observed[0]) {
        seq![observed[0]] + emitted_sequences(observed[0], observed.drop_first())
    } else {
        emitted_sequences(seen, observed.drop_first())
    }
}

pub open spec fn non_decreasing(s: Seq<nat>) -> bool {
    forall|i: int, j: int| 0 <= i <= j < s.len() ==> s[i] <= s[j]
}

pub open spec fn strictly_increasing(s: Seq<nat>) -> bool {
    forall|i: int, j: int| 0 <= i < j < s.len() ==> s[i] < s[j]
}

/// Law: while the slot does not change, a session emits nothing — polling
/// is free of duplicates.
pub proof fn lemma_no_change_no_emission(seen: nat, observed: Seq<nat>)
    requires
        forall|i: int| 0 <= i < observed.len() ==> observed[i] == seen,
    ensures
        emitted_sequences(seen, observed) =~= Seq::<nat>::empty(),
    decreases observed.len(),
{
    if observed.len() > 0 {
        lemma_no_change_no_emission(seen, observed.drop_first());
    }
}

/// Law: a session that starts before any frame is published and keeps
/// polling after the first publish emits that frame exactly once — not
/// zero times and not twice — as long as no further frame arrives.
pub proof fn lemma_first_frame_emitted_once(first: nat, observed: Seq<nat>)
    requires
        first != 0,
        observed.len() > 0,
        forall|i: int| 0 <= i < observed.len() ==> observed[i] == first,
    ensures
        emitted_sequences(0, observed) =~= seq![first],
{
    lemma_no_change_no_emission(first, observed.drop_first());
}

/// Law: a session that polls once after each publish — so it observes the
/// consecutive sequence numbers following the last one it saw — emits every
/// one of those frames exactly once, in publish order: nothing is dropped
/// and nothing is repeated.
pub proof fn lemma_polling_every_publish_emits_every_frame(seen: nat, observed: Seq<nat>)
    requires
        forall|i: int| 0 <= i < observed.len() ==> observed[i] == seen + i + 1,
    ensures
        emitted_sequences(seen, observed) =~= observed,
    decreases observed.len(),
{
    if observed.len() > 0 {
        let rest = observed.drop_first();
        lemma_polling_every_publish_emits_every_frame(observed[0], rest);
        assert(emitted_sequences(seen, observed) =~= seq![observed[0]] + rest);
    }
}

/// Law: against observations whose sequence numbers never decrease — which
/// is all a session can see of a slot whose sequence only grows — the
/// emitted sequence numbers strictly increase, and all exceed the last one
/// seen before the run. Two sessions polling at different rates therefore
/// each see a non-decreasing (indeed increasing), possibly different,
/// sub-sequence of the published sequence numbers.
pub proof fn lemma_emissions_increase(seen: nat, observed: Seq<nat>)
    requires
        non_decreasing(observed),
        observed.len() > 0 ==> seen <= observed[0],
    ensures
        strictly_increasing(emitted_sequences(seen, observed)),
        forall|j: int|
            0 <= j < emitted_sequences(seen, observed).len() ==> emitted_sequences(
                seen,
                observed,
            )[j] > seen,
    decreases observed.len(),
{
    if observed.len() > 0 {
        let rest = observed.drop_first();
        assert(non_decreasing(rest)) by {
            assert(forall|i: int, j: int|
                0 <= i <= j < rest.len() ==> rest[i] == observed[i + 1] && rest[j] == observed[j
                    + 1] && observed[i + 1] <= observed[j + 1]);
        }
        if poll_emits(seen, observed[0]) {
            lemma_emissions_increase(observed[0], rest);
            let tail = emitted_sequences(observed[0], rest);
            let whole = emitted_sequences(seen, observed);
            assert(whole =~= seq![observed[0]] + tail);
            assert(forall|j: int| 0 <= j < tail.len() ==> whole[j + 1] == tail[j]);
            assert(observed[0] > seen);
        } else {
            lemma_emissions_increase(seen, rest);
        }
    }
}

/// The outcome of one pass of the accept loop, as the embedding program
/// reports it: a connection arrived, one accept failed transiently, or the
/// listener itself failed.
#[derive(Clone, Copy, Debug, PartialEq, Eq, Structural)]
pub enum AcceptOutcome {
    Connection,
    TransientError,
    ListenerError,
}

/// What the acceptor decides to do after one pass of its loop.
pub enum AcceptStep {
    /// Hand the new connection an independent session; do not wait for it.
    Spawn(StreamSession),
    /// Log the per-connection failure and keep accepting.
    Continue,
    /// A listener-level failure: stop the acceptor and propagate.
    Stop(CapViCamError),
}

/// The Connection Acceptor. It holds no socket: the embedding program binds
/// the listener and blocks in accept, and hands each outcome here; every
/// decision — spawn, carry on, or stop — is taken by this state machine.
pub struct Mjpeg {
    accepting: bool,
    sessions_spawned: usize,
}

impl Mjpeg {
    /// How many sessions this acceptor has spawned.
    pub closed spec fn spawned(&self) -> nat {
        self.sessions_spawned as nat
    }

    /// Whether the acceptor is still accepting connections.
    pub closed spec fn is_accepting(&self) -> bool {
        self.accepting
    }

    /// Take the outcome of binding the listening socket. Only a successful
    /// bind yields an acceptor, and only an acceptor can spawn sessions, so
    /// a failed bind — reported as `ListenerBindFailed` — is never followed
    /// by any Stream Session.
    pub fn new(bound: bool) -> (r: Result<Mjpeg, CapViCamError>)
        ensures
            bound ==> (r matches Ok(m) && m.spawned() == 0 && m.is_accepting()),
            !bound ==> (r matches Err(e) && e.text()
                == ErrorKind::ListenerBindFailed.describe_spec()),
    {
        if bound {
            Ok(Mjpeg { accepting: true, sessions_spawned: 0 })
        } else {
            Err(ErrorKind::ListenerBindFailed.to_error())
        }
    }

    /// One pass of the accept loop. A connection spawns exactly one fresh,
    /// independent session; a transient accept failure spawns none and does
    /// not stop the acceptor; a listener-level failure stops it for good.
    pub fn on_accept(&mut self, outcome: AcceptOutcome) -> (r: AcceptStep)
        requires
            old(self).is_accepting(),
        ensures
            outcome == AcceptOutcome::Connection ==> (r matches AcceptStep::Spawn(s) && s.seen()
                == 0 && s.is_active() && final(self).is_accepting() && final(self).spawned() == (
            if old(self).spawned() < usize::MAX {
                old(self).spawned() + 1
            } else {
                old(self).spawned()
            })),
            outcome == AcceptOutcome::TransientError ==> (r is Continue
                && final(self).is_accepting() && final(self).spawned() == old(self).spawned()),
            outcome == AcceptOutcome::ListenerError ==> (r matches AcceptStep::Stop(e) && e.text()
                == ErrorKind::ClientIoFailed.describe_spec() && !final(self).is_accepting()
                && final(self).spawned() == old(self).spawned()),
    {
        match outcome {
            AcceptOutcome::Connection => {
                if self.sessions_spawned < usize::MAX {
                    self.sessions_spawned = self.sessions_spawned + 1;
                }
                AcceptStep::Spawn(StreamSession::new())
            },
            AcceptOutcome::TransientError => AcceptStep::Continue,
            AcceptOutcome::ListenerError => {
                self.accepting = false;
                AcceptStep::Stop(ErrorKind::ClientIoFailed.to_error())
            },
        }
    }
}

} // verus!
