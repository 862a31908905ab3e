//! The buffered strategy of the data mover.
//!
//! An attempt is one read from the source into a buffer of 16 KiB and one
//! write of what was read to the destination. The write may take only a
//! part, or would have had to wait: what it did not take stays in the
//! buffer, for the same destination, and the next attempt is one write of
//! it. Nothing is read while the buffer holds anything, so the bytes leave
//! in the order in which they came.

use crate::splice::pipe::Error;
use crate::splice::wire::Wire;
use crate::stream_util::Outcome;
use crate::stream_util::Wait;
use vstd::prelude::*;

verus! {

/// The size of the buffer.
pub const BUFFER_SIZE: usize = 16384;

/// A call on the buffer of the session.
#[derive(Clone, Copy, Debug, PartialEq, Eq, Structural)]
pub enum IoCall {
    /// Read up to `max` bytes from `fd` into the front of the buffer,
    /// without waiting.
    Read { fd: i32, max: usize },
    /// Write the `len` bytes of the buffer that start at `from` to `fd`,
    /// without waiting.
    Write { fd: i32, from: usize, len: usize },
}

/// What the mover asks for next.
#[derive(Clone, Copy, Debug, PartialEq, Eq, Structural)]
pub enum Step {
    /// Make this call and come back with what it returned.
    Call(IoCall),
    /// The attempt is over.
    Done(Outcome),
}

/// Where an attempt stands.
#[derive(Clone, Copy, Debug, PartialEq, Eq, Structural)]
pub enum Stage {
    /// No attempt is under way.
    Idle,
    /// The read from `src` is awaited; what it yields goes to `dst`.
    Reading { src: i32, dst: i32 },
    /// The write of what the buffer holds is awaited.
    Writing,
}

/// The mover's state, as contracts see it.
pub struct BufferState {
    /// Where in the buffer the bytes that it holds start.
    pub start: int,
    /// Where in the buffer the bytes that it holds end.
    pub end: int,
    /// The descriptor that the bytes in the buffer are bound for.
    pub owed_to: i32,
    /// Where the attempt stands.
    pub stage: Stage,
    /// Whether this attempt has read any byte.
    pub moved: bool,
}

impl BufferState {
    /// The state of a mover with an empty buffer.
    pub open spec fn fresh() -> BufferState {
        BufferState { start: 0, end: 0, owed_to: 0, stage: Stage::Idle, moved: false }
    }

    /// How many bytes the buffer holds.
    pub open spec fn resident(self) -> int {
        self.end - self.start
    }

    /// The bytes that the buffer holds lie within it; it is read into only
    /// while it is empty, and written from only while it holds something.
    pub open spec fn wf(self) -> bool {
        &&& 0 <= self.start <= self.end <= BUFFER_SIZE
        &&& match self.stage {
            Stage::Idle => !self.moved,
            Stage::Reading { src, dst } => self.start == self.end && !self.moved,
            Stage::Writing => self.start < self.end,
        }
    }

    /// The one write of all that the buffer holds, to the descriptor that it
    /// is owed to.
    pub open spec fn write_call(self) -> IoCall {
        IoCall::Write {
            fd: self.owed_to,
            from: self.start as usize,
            len: (self.end - self.start) as usize,
        }
    }

    /// The call whose return the mover is waiting for, if any.
    pub open spec fn pending(self) -> Option<IoCall> {
        match self.stage {
            Stage::Idle => None,
            Stage::Reading { src, dst } => Some(IoCall::Read { fd: src, max: BUFFER_SIZE }),
            Stage::Writing => Some(self.write_call()),
        }
    }

    /// What the session waits for before the next attempt: while the buffer
    /// holds bytes, for the descriptor that they are owed to, else for
    /// something to read.
    pub open spec fn awaits(self) -> Wait {
        if self.start < self.end {
            Wait::Writable { fd: self.owed_to }
        } else {
            Wait::Readable
        }
    }

    /// This state with the attempt over.
    pub open spec fn at_rest(self) -> BufferState {
        BufferState { stage: Stage::Idle, moved: false, ..self }
    }

    /// The start of an attempt to move bytes from `src` to `dst`. No attempt
    /// starts while another is under way. While the buffer holds bytes of an
    /// earlier attempt, the attempt is the one write of them, and nothing is
    /// read; else it starts with the one read.
    pub open spec fn begin(self, src: i32, dst: i32) -> Option<(BufferState, Step)> {
        if !(self.stage is Idle) {
            None
        } else if self.start < self.end {
            Some(
                (
                    BufferState { stage: Stage::Writing, moved: false, ..self },
                    Step::Call(self.write_call()),
                ),
            )
        } else {
            Some(
                (
                    BufferState { stage: Stage::Reading { src, dst }, moved: false, ..self },
                    Step::Call(IoCall::Read { fd: src, max: BUFFER_SIZE }),
                ),
            )
        }
    }

    /// What the mover does with the return of the read.
    ///
    /// A read of nothing means that the source is closed. A read that would
    /// have had to wait ends the attempt without progress. A read of `n`
    /// bytes is followed by the one write of these `n` bytes. Any other
    /// failure ends the attempt.
    pub open spec fn read(self, dst: i32, reply: Result<usize, Error>) -> Option<
        (BufferState, Step),
    > {
        match reply {
            Ok(n) => {
                if n > BUFFER_SIZE {
                    None
                } else if n == 0 {
                    Some((self.at_rest(), Step::Done(Outcome::PeerClosed)))
                } else {
                    let filled = BufferState {
                        start: 0,
                        end: n as int,
                        owed_to: dst,
                        stage: Stage::Writing,
                        moved: true,
                    };
                    Some((filled, Step::Call(filled.write_call())))
                }
            },
            Err(Error::EAgain) => Some((self.at_rest(), Step::Done(Outcome::NoProgress))),
            Err(Error::Other(errno)) => Some((self.at_rest(), Step::Done(Outcome::Failed(errno)))),
        }
    }

    /// What the mover does with the return of the write. Whatever it is, the
    /// attempt is over: an attempt makes one write.
    ///
    /// Bytes that went out are no longer held. When the write took a part,
    /// or would have had to wait, the rest stays in the buffer, and the
    /// attempt ends without error. A write of nothing means that the
    /// destination is closed. Any other failure ends the attempt.
    pub open spec fn written(self, reply: Result<usize, Error>) -> Option<(BufferState, Step)> {
        match reply {
            Ok(n) => {
                if n > self.end - self.start {
                    None
                } else if n == 0 {
                    Some((self.at_rest(), Step::Done(Outcome::PeerClosed)))
                } else if self.start + n == self.end {
                    Some(
                        (
                            BufferState { start: 0, end: 0, ..self }.at_rest(),
                            Step::Done(Outcome::Progress),
                        ),
                    )
                } else {
                    Some(
                        (
                            BufferState { start: self.start + n, ..self }.at_rest(),
                            Step::Done(Outcome::Progress),
                        ),
                    )
                }
            },
            Err(Error::EAgain) => Some(
                (
                    self.at_rest(),
                    Step::Done(
                        if self.moved {
                            Outcome::Progress
                        } else {
                            Outcome::NoProgress
                        },
                    ),
                ),
            ),
            Err(Error::Other(errno)) => Some((self.at_rest(), Step::Done(Outcome::Failed(errno)))),
        }
    }

    /// What the mover does with the return of the call it was waiting for.
    /// A return that the call cannot have had, more bytes than it asked
    /// for, is refused, as is any return while no call is awaited.
    pub open spec fn resume(self, reply: Result<usize, Error>) -> Option<(BufferState, Step)> {
        match self.stage {
            Stage::Idle => None,
            Stage::Reading { src, dst } => self.read(dst, reply),
            Stage::Writing => self.written(reply),
        }
    }
}

/// An attempt is one read and one write at most: the read is followed by a
/// write only where it yielded bytes, by one write of exactly these bytes,
/// and whatever the write returns, the attempt is over.
pub proof fn lemma_one_read_one_write(s: BufferState, reply: Result<usize, Error>)
    requires
        s.wf(),
        s.resume(reply) is Some,
    ensures
        ({
            let (next, step) = s.resume(reply).unwrap();
            &&& next.wf()
            &&& s.stage is Writing ==> step is Done && next.stage is Idle
            &&& s.stage matches Stage::Reading { src, dst } ==> match reply {
                Ok(n) if n > 0 => step == Step::Call(IoCall::Write { fd: dst, from: 0, len: n })
                    && next.stage is Writing,
                _ => step is Done && next.stage is Idle,
            }
        }),
{
}

/// What a write did not take is written first: after a write that took
/// `n` bytes of more, the attempt is over with progress, the rest is still
/// owed to the same descriptor, the session waits for that descriptor, and
/// the next attempt, for whatever source and destination it is started,
/// is the one write of the rest, and reads nothing.
pub proof fn lemma_rest_goes_first(s: BufferState, n: usize, src: i32, dst: i32)
    requires
        s.wf(),
        s.stage is Writing,
        0 < n < s.resident(),
    ensures
        s.resume(Ok(n)) matches Some((next, step)) && {
            &&& step == Step::Done(Outcome::Progress)
            &&& next.wf()
            &&& next.start == s.start + n
            &&& next.end == s.end
            &&& next.owed_to == s.owed_to
            &&& next.awaits() == (Wait::Writable { fd: s.owed_to })
            &&& next.begin(src, dst) matches Some((then, wanted)) && wanted == Step::Call(
                IoCall::Write {
                    fd: s.owed_to,
                    from: (s.start + n) as usize,
                    len: (s.end - s.start - n) as usize,
                },
            )
        },
{
}

impl BufferState {
    /// Whether the mover knows the wire `w`: it holds in its buffer what
    /// the wire says is under way, owes it to the wire's destination, and
    /// what the destination has got, followed by what is under way, is what
    /// was taken from the source.
    pub open spec fn tracks(self, w: Wire) -> bool {
        &&& 0 <= w.taken <= w.sent.len()
        &&& w.pipe.len() == self.resident()
        &&& w.received + w.pipe == w.sent.take(w.taken)
        &&& self.start < self.end ==> self.owed_to == w.dst
        &&& self.stage matches Stage::Reading { src, dst } ==> src == w.src && dst == w.dst
    }

    /// Whether the awaited call can have returned `reply` on the wire `w`:
    /// it moves no more than it was asked for, and no more than there is.
    pub open spec fn allows(self, w: Wire, reply: Result<usize, Error>) -> bool {
        match reply {
            Ok(n) => match self.stage {
                Stage::Idle => false,
                Stage::Reading { src, dst } => n <= BUFFER_SIZE && w.taken + n <= w.sent.len(),
                Stage::Writing => n <= self.resident(),
            },
            Err(_) => true,
        }
    }

    /// The wire after the awaited call returned `reply`.
    pub open spec fn wire_after(self, w: Wire, reply: Result<usize, Error>) -> Wire {
        match reply {
            Ok(n) => match self.stage {
                Stage::Idle => w,
                Stage::Reading { src, dst } => w.filled(n as int),
                Stage::Writing => w.emptied(n as int),
            },
            Err(_) => w,
        }
    }
}

/// Whatever the awaited call returns, within what it can return, the mover
/// accepts it and keeps track of the wire: under this strategy too, what
/// the destination has got is at every moment the beginning of what the
/// source sent.
pub proof fn lemma_buffer_keeps_order(s: BufferState, w: Wire, reply: Result<usize, Error>)
    requires
        s.wf(),
        s.tracks(w),
        s.pending() is Some,
        s.allows(w, reply),
    ensures
        s.resume(reply) matches Some((next, step)) && {
            &&& next.wf()
            &&& next.tracks(s.wire_after(w, reply))
            &&& s.wire_after(w, reply).received.len() <= w.sent.len()
            &&& s.wire_after(w, reply).received == w.sent.take(
                s.wire_after(w, reply).received.len() as int,
            )
        },
{
    let w2 = s.wire_after(w, reply);
    match reply {
        Ok(n) => {
            match s.stage {
                Stage::Idle => {},
                Stage::Reading { src, dst } => {
                    let more = w.sent.subrange(w.taken, w.taken + n);
                    assert(w.sent.take(w.taken + n) =~= w.sent.take(w.taken) + more);
                    assert(w2.received + w2.pipe =~= (w.received + w.pipe) + more);
                },
                Stage::Writing => {
                    assert(w2.received + w2.pipe =~= w.received + w.pipe);
                },
            }
        },
        Err(_) => {},
    }
    assert(w2.received.len() + w2.pipe.len() == w2.sent.take(w2.taken).len());
    assert(w2.received =~= w2.sent.take(w2.taken).take(w2.received.len() as int));
}

/// Starting an attempt moves no byte and keeps track of the wire.
pub proof fn lemma_buffer_begin_keeps_order(s: BufferState, w: Wire)
    requires
        s.wf(),
        s.tracks(w),
        s.stage is Idle,
    ensures
        s.begin(w.src, w.dst) matches Some((next, step)) && {
            &&& next.wf()
            &&& next.tracks(w)
            &&& step matches Step::Call(call) && {
                &&& next.pending() == Some(call)
                &&& call matches IoCall::Read { fd, max } ==> fd == w.src && s.resident() == 0
                &&& call matches IoCall::Write { fd, from, len } ==> fd == w.dst
            }
        },
{
}

/// The mover of one session under the buffered strategy.
///
/// It never makes a call itself: `begin` and `resume` say which call comes
/// next, and `resume` is told what the call returned.
pub struct Buffered {
    start: usize,
    end: usize,
    owed_to: i32,
    stage: Stage,
    moved: bool,
}

impl View for Buffered {
    type V = BufferState;

    closed spec fn view(&self) -> BufferState {
        BufferState {
            start: self.start as int,
            end: self.end as int,
            owed_to: self.owed_to,
            stage: self.stage,
            moved: self.moved,
        }
    }
}

impl Buffered {
    #[verifier::type_invariant]
    spec fn inv(self) -> bool {
        self@.wf()
    }

    /// A mover with an empty buffer.
    pub fn new() -> (mover: Buffered)
        ensures
            mover@ == BufferState::fresh(),
            mover@.wf(),
    {
        Buffered { start: 0, end: 0, owed_to: 0, stage: Stage::Idle, moved: false }
    }

    /// Where the attempt stands.
    pub fn stage(&self) -> (stage: Stage)
        ensures
            stage == self@.stage,
    {
        self.stage
    }

    /// How many bytes the buffer holds.
    pub fn resident(&self) -> (bytes: usize)
        ensures
            bytes == self@.resident(),
            bytes <= BUFFER_SIZE,
    {
        proof {
            use_type_invariant(self);
        }
        self.end - self.start
    }

    /// What the session waits for before the next attempt.
    pub fn awaits(&self) -> (wait: Wait)
        ensures
            wait == self@.awaits(),
    {
        if self.start < self.end {
            Wait::Writable { fd: self.owed_to }
        } else {
            Wait::Readable
        }
    }

    /// The call whose return the mover is waiting for, if any.
    pub fn pending(&self) -> (call: Option<IoCall>)
        ensures
            call == self@.pending(),
    {
        proof {
            use_type_invariant(self);
        }
        match self.stage {
            Stage::Idle => None,
            Stage::Reading { src, dst } => Some(IoCall::Read { fd: src, max: BUFFER_SIZE }),
            Stage::Writing => Some(
                IoCall::Write { fd: self.owed_to, from: self.start, len: self.end - self.start },
            ),
        }
    }

    /// Ends the attempt, with the buffer holding what lies from `start` to
    /// `end`.
    fn rest(&mut self, start: usize, end: usize)
        requires
            start <= end <= BUFFER_SIZE,
        ensures
            final(self)@ == (BufferState {
                start: start as int,
                end: end as int,
                ..old(self)@
            }).at_rest(),
            final(self)@.wf(),
    {
        *self = Buffered { start, end, owed_to: self.owed_to, stage: Stage::Idle, moved: false };
    }

    /// Starts an attempt to move bytes from `src_fd` to `dst_fd`. Returns
    /// `None`, and changes nothing, while another attempt is under way.
    pub fn begin(&mut self, src_fd: i32, dst_fd: i32) -> (step: Option<Step>)
        ensures
            final(self)@.wf(),
            step is Some <==> old(self)@.stage is Idle,
            match old(self)@.begin(src_fd, dst_fd) {
                Some((next, s)) => final(self)@ == next && step == Some(s),
                None => final(self)@ == old(self)@ && step is None,
            },
    {
        proof {
            use_type_invariant(&*self);
        }
        match self.stage {
            Stage::Idle => {},
            _ => {
                return None;
            },
        }
        if self.start < self.end {
            *self = Buffered {
                start: self.start,
                end: self.end,
                owed_to: self.owed_to,
                stage: Stage::Writing,
                moved: false,
            };
            Some(
                Step::Call(
                    IoCall::Write { fd: self.owed_to, from: self.start, len: self.end - self.start },
                ),
            )
        } else {
            *self = Buffered {
                start: self.start,
                end: self.end,
                owed_to: self.owed_to,
                stage: Stage::Reading { src: src_fd, dst: dst_fd },
                moved: false,
            };
            Some(Step::Call(IoCall::Read { fd: src_fd, max: BUFFER_SIZE }))
        }
    }

    /// Takes what the awaited call returned and says what comes next.
    /// Returns `None`, and changes nothing, when no call is awaited or when
    /// `reply` counts more bytes than the call asked for.
    pub fn resume(&mut self, reply: Result<usize, Error>) -> (step: Option<Step>)
        ensures
            final(self)@.wf(),
            match old(self)@.resume(reply) {
                Some((next, s)) => final(self)@ == next && step == Some(s),
                None => final(self)@ == old(self)@ && step is None,
            },
    {
        proof {
            use_type_invariant(&*self);
        }
        let start = self.start;
        let end = self.end;
        match self.stage {
            Stage::Idle => None,
            Stage::Reading { src, dst } => match reply {
                Ok(n) => {
                    if n > BUFFER_SIZE {
                        None
                    } else if n == 0 {
                        self.rest(start, end);
                        Some(Step::Done(Outcome::PeerClosed))
                    } else {
                        *self = Buffered {
                            start: 0,
                            end: n,
                            owed_to: dst,
                            stage: Stage::Writing,
                            moved: true,
                        };
                        Some(Step::Call(IoCall::Write { fd: dst, from: 0, len: n }))
                    }
                },
                Err(Error::EAgain) => {
                    self.rest(start, end);
                    Some(Step::Done(Outcome::NoProgress))
                },
                Err(Error::Other(errno)) => {
                    self.rest(start, end);
                    Some(Step::Done(Outcome::Failed(errno)))
                },
            },
            Stage::Writing => match reply {
                Ok(n) => {
                    if n > end - start {
                        None
                    } else if n == 0 {
                        self.rest(start, end);
                        Some(Step::Done(Outcome::PeerClosed))
                    } else if start + n == end {
                        self.rest(0, 0);
                        Some(Step::Done(Outcome::Progress))
                    } else {
                        self.rest(start + n, end);
                        Some(Step::Done(Outcome::Progress))
                    }
                },
                Err(Error::EAgain) => {
                    let outcome = if self.moved {
                        Outcome::Progress
                    } else {
                        Outcome::NoProgress
                    };
                    self.rest(start, end);
                    Some(Step::Done(outcome))
                },
                Err(Error::Other(errno)) => {
                    self.rest(start, end);
                    Some(Step::Done(Outcome::Failed(errno)))
                },
            },
        }
    }
}

} // verus!
