//! The bytes of one direction of a session, and the proof that the mover
//! hands them on in the order in which they came.
//!
//! Nothing here runs. `Wire` says where each byte is: still with the source,
//! in the pipe, or with the destination. The kernel moves bytes first in,
//! first out; the mover decides which call is made and how much it may move.

use crate::splice::pipe::Error;
use crate::splice::pipe::Pipe;
use crate::splice::pipe::SpliceCall;
use crate::splice::Stage;
use crate::splice::Step;
use crate::splice::TransferState;
use crate::splice::WINDOW;
use vstd::prelude::*;

verus! {

/// Where the bytes of one direction are.
pub struct Wire {
    /// The descriptor that the bytes come from.
    pub src: i32,
    /// The descriptor that the bytes go to.
    pub dst: i32,
    /// Every byte that the source yields, in order.
    pub sent: Seq<u8>,
    /// How many of them have entered the pipe.
    pub taken: int,
    /// What the pipe holds, oldest first.
    pub pipe: Seq<u8>,
    /// What the destination has got, in order.
    pub received: Seq<u8>,
}

impl Wire {
    /// The wire after the next `n` bytes of the source entered the pipe.
    pub open spec fn filled(self, n: int) -> Wire {
        Wire {
            taken: self.taken + n,
            pipe: self.pipe + self.sent.subrange(self.taken, self.taken + n),
            ..self
        }
    }

    /// The wire after the oldest `n` bytes of the pipe reached the
    /// destination.
    pub open spec fn emptied(self, n: int) -> Wire {
        Wire { pipe: self.pipe.skip(n), received: self.received + self.pipe.take(n), ..self }
    }

    /// Whether a call made at `stage` for `len` bytes can have returned
    /// `reply`: it moves no more than it was asked for, and no more than
    /// there is.
    pub open spec fn allows(self, stage: Stage, len: usize, reply: Result<usize, Error>) -> bool {
        match reply {
            Ok(n) => {
                &&& n <= len
                &&& stage is Draining ==> self.taken + n <= self.sent.len()
                &&& stage is Flushing ==> n <= self.pipe.len()
            },
            Err(_) => true,
        }
    }

    /// The wire after a call made at `stage` returned `reply`.
    pub open spec fn after(self, stage: Stage, reply: Result<usize, Error>) -> Wire {
        match reply {
            Ok(n) => match stage {
                Stage::Idle => self,
                Stage::Draining { src, dst } => self.filled(n as int),
                Stage::Flushing => self.emptied(n as int),
            },
            Err(_) => self,
        }
    }

    /// Whether `call` moves bytes of this direction the right way: from the
    /// source into the pipe, or out of the pipe to the destination.
    pub open spec fn carries(self, t: TransferState, call: SpliceCall) -> bool {
        ||| call.fd_in == self.src && call.fd_out == t.pipe.write_fd
        ||| call.fd_in == t.pipe.read_fd && call.fd_out == self.dst
    }

    /// The mover `t` knows this wire: it counts what the pipe holds, owes it
    /// to this destination, and what the destination has got, followed by
    /// what the pipe holds, is what was taken from the source.
    pub open spec fn tracked_by(self, t: TransferState) -> bool {
        &&& 0 <= self.taken <= self.sent.len()
        &&& self.pipe.len() == t.resident
        &&& self.received + self.pipe == self.sent.take(self.taken)
        &&& t.resident > 0 ==> t.owed_to == self.dst
        &&& t.stage matches Stage::Draining { src, dst } ==> src == self.src && dst == self.dst
    }
}

/// A wire that its mover tracks has lost, doubled or swapped nothing: what
/// the destination has got is the beginning of what the source sent, and
/// once the pipe is empty it is all that was taken.
pub proof fn lemma_received_is_prefix(t: TransferState, w: Wire)
    requires
        t.wf(),
        w.tracked_by(t),
    ensures
        w.received.len() <= w.sent.len(),
        w.received == w.sent.take(w.received.len() as int),
        t.resident == 0 ==> w.received == w.sent.take(w.taken),
{
    assert(w.received.len() + w.pipe.len() == w.sent.take(w.taken).len());
}

/// Starting an attempt on a tracked wire moves no byte, keeps the wire
/// tracked, and asks for a call that carries this direction's bytes.
pub proof fn lemma_begin_keeps_order(t: TransferState, w: Wire)
    requires
        t.wf(),
        w.tracked_by(t),
        t.stage is Idle,
    ensures
        t.begin(w.src, w.dst) matches Some((next, step)) && {
            &&& next.wf()
            &&& w.tracked_by(next)
            &&& step matches Step::Call(call) && w.carries(next, call) && next.pending() == Some(
                call,
            )
        },
{
}

/// Whatever the awaited call returns, within what the kernel can return,
/// the mover accepts it, the wire stays tracked, and a call that it asks for
/// next carries this direction's bytes. So over a whole session, with the
/// destination taking as little at a time as it likes, the bytes arrive in
/// the order in which they were sent, each once.
pub proof fn lemma_resume_keeps_order(t: TransferState, w: Wire, reply: Result<usize, Error>)
    requires
        t.wf(),
        w.tracked_by(t),
        t.pending() matches Some(call) && w.allows(t.stage, call.len, reply),
    ensures
        t.resume(reply) matches Some((next, step)) && {
            &&& next.wf()
            &&& w.after(t.stage, reply).tracked_by(next)
            &&& step matches Step::Call(call) ==> w.carries(next, call) && next.pending() == Some(
                call,
            )
            &&& step is Done ==> next.stage is Idle
        },
{
    let w2 = w.after(t.stage, reply);
    match reply {
        Ok(n) => {
            match t.stage {
                Stage::Idle => {},
                Stage::Draining { src, dst } => {
                    let more = w.sent.subrange(w.taken, w.taken + n);
                    assert(w.sent.take(w.taken + n) =~= w.sent.take(w.taken) + more);
                    assert(w2.received + w2.pipe =~= (w.received + w.pipe) + more);
                },
                Stage::Flushing => {
                    assert(w2.received + w2.pipe =~= w.received + w.pipe);
                },
            }
        },
        Err(_) => {},
    }
}

/// One turn of a session, seen from the mover.
pub enum Turn {
    /// The source is readable, and an attempt starts.
    Begin,
    /// The awaited call has returned this.
    Reply(Result<usize, Error>),
}

impl Wire {
    /// The wire of a direction on which nothing has moved yet.
    pub open spec fn unused(src: i32, dst: i32, sent: Seq<u8>) -> Wire {
        Wire { src, dst, sent, taken: 0, pipe: Seq::empty(), received: Seq::empty() }
    }

    /// The mover and the wire after one turn. A turn that cannot be, a start
    /// while an attempt is under way or a return that the kernel cannot
    /// give, changes nothing.
    pub open spec fn turn(self, t: TransferState, turn: Turn) -> (TransferState, Wire) {
        match turn {
            Turn::Begin => match t.begin(self.src, self.dst) {
                Some((next, step)) => (next, self),
                None => (t, self),
            },
            Turn::Reply(reply) => match t.pending() {
                Some(call) => {
                    if self.allows(t.stage, call.len, reply) {
                        match t.resume(reply) {
                            Some((next, step)) => (next, self.after(t.stage, reply)),
                            None => (t, self),
                        }
                    } else {
                        (t, self)
                    }
                },
                None => (t, self),
            },
        }
    }

    /// The mover and the wire after the turns of a session, one after the
    /// other.
    pub open spec fn session(self, t: TransferState, turns: Seq<Turn>) -> (TransferState, Wire)
        decreases turns.len(),
    {
        if turns.len() == 0 {
            (t, self)
        } else {
            let (before, wire) = self.session(t, turns.drop_last());
            wire.turn(before, turns.last())
        }
    }
}

/// At every moment of a session that moves bytes one way, however the
/// source yields them and however little the destination takes at a time,
/// what the destination has got is the beginning of what the source sent:
/// no byte is lost before another arrives, none arrives twice, and none
/// overtakes another. The pipe never holds more than the window.
pub proof fn lemma_session_keeps_order(t: TransferState, w: Wire, turns: Seq<Turn>)
    requires
        t.wf(),
        w.tracked_by(t),
    ensures
        ({
            let (end, wire) = w.session(t, turns);
            &&& end.wf()
            &&& wire.tracked_by(end)
            &&& wire.sent == w.sent
            &&& wire.pipe.len() <= WINDOW
            &&& wire.received.len() <= wire.sent.len()
            &&& wire.received == wire.sent.take(wire.received.len() as int)
        }),
    decreases turns.len(),
{
    if turns.len() == 0 {
        lemma_received_is_prefix(t, w);
    } else {
        lemma_session_keeps_order(t, w, turns.drop_last());
        let (before, wire) = w.session(t, turns.drop_last());
        match turns.last() {
            Turn::Begin => {
                if before.stage is Idle {
                    lemma_begin_keeps_order(before, wire);
                }
            },
            Turn::Reply(reply) => {
                if before.pending() is Some && wire.allows(
                    before.stage,
                    before.pending().unwrap().len,
                    reply,
                ) {
                    lemma_resume_keeps_order(before, wire, reply);
                }
            },
        }
        let (end, last) = w.session(t, turns);
        lemma_received_is_prefix(end, last);
    }
}

/// A session starts well: a new mover tracks a wire on which nothing has
/// moved.
pub proof fn lemma_unused_wire_is_tracked(pipe: Pipe, src: i32, dst: i32, sent: Seq<u8>)
    ensures
        TransferState::fresh(pipe).wf(),
        Wire::unused(src, dst, sent).tracked_by(TransferState::fresh(pipe)),
{
    let w = Wire::unused(src, dst, sent);
    assert(w.received + w.pipe =~= w.sent.take(0));
}

} // verus!
