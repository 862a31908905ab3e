//! The zero-copy strategy of the data mover.
//!
//! Bytes go from the source socket into a kernel pipe and from the pipe into
//! the destination socket, 16 KiB at most at a time. The pipe is shared by
//! both directions of a session, so what is left in it when the destination
//! cannot take more is remembered together with the socket it is owed to, and
//! leaves the pipe before anything else enters.

pub mod pipe;
pub mod wire;

use crate::splice::pipe::Error;
use crate::splice::pipe::Pipe;
use crate::splice::pipe::SpliceCall;
use crate::stream_util::Outcome;
use crate::stream_util::Wait;
use vstd::prelude::*;

verus! {

/// The most bytes that the pipe ever holds.
pub const WINDOW: usize = 16384;

/// The outcome of an attempt that found one side closed.
pub fn connection_closed() -> (outcome: Outcome)
    ensures
        outcome == Outcome::PeerClosed,
{
    Outcome::PeerClosed
}

/// The outcome of an attempt that failed with the error number `errno`.
pub fn other_error(errno: i32) -> (outcome: Outcome)
    ensures
        outcome == Outcome::Failed(errno),
{
    Outcome::Failed(errno)
}

/// Where an attempt stands.
#[derive(Clone, Copy, Debug, PartialEq, Eq, Structural)]
pub enum Stage {
    /// No attempt is under way.
    Idle,
    /// A call that fills the pipe from `src`, for `dst`, is awaited.
    Draining { src: i32, dst: i32 },
    /// A call that empties the pipe is awaited.
    Flushing,
}

/// What the mover asks for next.
#[derive(Clone, Copy, Debug, PartialEq, Eq, Structural)]
pub enum Step {
    /// Make this call and come back with what it returned.
    Call(SpliceCall),
    /// The attempt is over.
    Done(Outcome),
}

/// The mover's state, as contracts see it.
pub struct TransferState {
    /// The pipe of the session.
    pub pipe: Pipe,
    /// How many bytes are in the pipe.
    pub resident: int,
    /// The descriptor that the bytes in the pipe are bound for.
    pub owed_to: i32,
    /// Where the attempt stands.
    pub stage: Stage,
    /// Whether this attempt has moved any byte.
    pub moved: bool,
    /// Whether the source has reported its end in this attempt.
    pub closed: bool,
}

impl TransferState {
    /// The state of a mover over an empty pipe.
    pub open spec fn fresh(pipe: Pipe) -> TransferState {
        TransferState {
            pipe,
            resident: 0,
            owed_to: 0,
            stage: Stage::Idle,
            moved: false,
            closed: false,
        }
    }

    /// The pipe never holds more than the window; it is filled only while
    /// there is room, for one destination at a time, and emptied only while
    /// it holds something.
    pub open spec fn wf(self) -> bool {
        &&& 0 <= self.resident <= WINDOW
        &&& match self.stage {
            Stage::Idle => !self.moved && !self.closed,
            Stage::Draining { src, dst } => {
                &&& self.resident < WINDOW
                &&& !self.closed
                &&& self.resident > 0 ==> self.owed_to == dst
            },
            Stage::Flushing => self.resident > 0,
        }
    }

    /// The call that fills the pipe from `src` with as much as still fits.
    pub open spec fn drain_call(self, src: i32) -> SpliceCall {
        SpliceCall {
            fd_in: src,
            fd_out: self.pipe.write_fd,
            len: (WINDOW - self.resident) as usize,
        }
    }

    /// The call that hands all that the pipe holds to the descriptor it is
    /// owed to.
    pub open spec fn flush_call(self) -> SpliceCall {
        SpliceCall { fd_in: self.pipe.read_fd, fd_out: self.owed_to, len: self.resident as usize }
    }

    /// The call whose return the mover is waiting for, if any.
    pub open spec fn pending(self) -> Option<SpliceCall> {
        match self.stage {
            Stage::Idle => None,
            Stage::Draining { src, dst } => Some(self.drain_call(src)),
            Stage::Flushing => Some(self.flush_call()),
        }
    }

    /// What the session waits for before the next attempt: while the pipe
    /// holds bytes, for the descriptor that they are owed to, else for
    /// something to read.
    pub open spec fn awaits(self) -> Wait {
        if self.resident > 0 {
            Wait::Writable { fd: self.owed_to }
        } else {
            Wait::Readable
        }
    }

    /// This state with the attempt over.
    pub open spec fn at_rest(self) -> TransferState {
        TransferState { stage: Stage::Idle, moved: false, closed: false, ..self }
    }

    /// How an attempt ends once the pipe is empty: with the source's end if
    /// it was seen, else by whether anything was moved.
    pub open spec fn verdict(self) -> Outcome {
        if self.closed {
            Outcome::PeerClosed
        } else if self.moved {
            Outcome::Progress
        } else {
            Outcome::NoProgress
        }
    }

    /// What follows the filling: the pipe is emptied if it holds anything,
    /// else the attempt is over.
    pub open spec fn after_drain(self) -> (TransferState, Step) {
        if self.resident > 0 {
            (TransferState { stage: Stage::Flushing, ..self }, Step::Call(self.flush_call()))
        } else {
            (self.at_rest(), Step::Done(self.verdict()))
        }
    }

    /// The start of an attempt to move bytes from `src` to `dst`. No attempt
    /// starts while another is under way. What an earlier attempt left in
    /// the pipe goes out first, and then nothing is taken from `src`.
    pub open spec fn begin(self, src: i32, dst: i32) -> Option<(TransferState, Step)> {
        if !(self.stage is Idle) {
            None
        } else if self.resident > 0 {
            Some(
                (
                    TransferState { stage: Stage::Flushing, moved: false, closed: false, ..self },
                    Step::Call(self.flush_call()),
                ),
            )
        } else {
            Some(
                (
                    TransferState {
                        stage: Stage::Draining { src, dst },
                        moved: false,
                        closed: false,
                        ..self
                    },
                    Step::Call(self.drain_call(src)),
                ),
            )
        }
    }

    /// What the mover does with the return of a call that filled the pipe.
    ///
    /// Bytes that came in are counted and owed to `dst`, and the filling
    /// goes on while there is room. It ends when the window is full, when
    /// the source would have had to wait, or when it yields nothing, which
    /// means that it is closed. Any other failure ends the attempt.
    pub open spec fn drained(self, src: i32, dst: i32, reply: Result<usize, Error>) -> Option<
        (TransferState, Step),
    > {
        match reply {
            Ok(n) => {
                if n > WINDOW - self.resident {
                    None
                } else if n == 0 {
                    Some(TransferState { closed: true, ..self }.after_drain())
                } else {
                    let grown = TransferState {
                        resident: self.resident + n,
                        owed_to: dst,
                        moved: true,
                        ..self
                    };
                    if grown.resident < WINDOW {
                        Some((grown, Step::Call(grown.drain_call(src))))
                    } else {
                        Some(grown.after_drain())
                    }
                }
            },
            Err(Error::EAgain) => Some(self.after_drain()),
            Err(Error::Other(errno)) => Some((self.at_rest(), Step::Done(Outcome::Failed(errno)))),
        }
    }

    /// What the mover does with the return of a call that emptied the pipe.
    ///
    /// Bytes that went out are no longer counted, and the emptying goes on
    /// while the pipe holds any. When the destination would have had to
    /// wait, the attempt ends and what is left stays counted: the next
    /// attempt starts with it, and a source that was found closed is found
    /// closed again after it. A call that moves nothing means that the
    /// destination is closed. Any other failure ends the attempt.
    pub open spec fn flushed(self, reply: Result<usize, Error>) -> Option<(TransferState, Step)> {
        match reply {
            Ok(n) => {
                if n > self.resident {
                    None
                } else if n == 0 {
                    Some((self.at_rest(), Step::Done(Outcome::PeerClosed)))
                } else {
                    let shrunk = TransferState {
                        resident: self.resident - n,
                        moved: true,
                        ..self
                    };
                    if shrunk.resident > 0 {
                        Some((shrunk, Step::Call(shrunk.flush_call())))
                    } else {
                        Some((shrunk.at_rest(), Step::Done(shrunk.verdict())))
                    }
                }
            },
            Err(Error::EAgain) => Some(
                (
                    self.at_rest(),
                    Step::Done(
                        if self.moved {
                            Outcome::Progress
                        } else {
                            Outcome::NoProgress
                        },
                    ),
                ),
            ),
            Err(Error::Other(errno)) => Some((self.at_rest(), Step::Done(Outcome::Failed(errno)))),
        }
    }

    /// What the mover does with the return of the call it was waiting for.
    /// A return that the call cannot have had, more bytes than it asked
    /// for, is refused, as is any return while no call is awaited.
    pub open spec fn resume(self, reply: Result<usize, Error>) -> Option<(TransferState, Step)> {
        match self.stage {
            Stage::Idle => None,
            Stage::Draining { src, dst } => self.drained(src, dst, reply),
            Stage::Flushing => self.flushed(reply),
        }
    }
}

/// The mover of one session under the zero-copy strategy.
///
/// It never makes a call itself: `begin` and `resume` say which call comes
/// next, and `resume` is told what the call returned.
pub struct Transfer {
    pipe: Pipe,
    resident: usize,
    owed_to: i32,
    stage: Stage,
    moved: bool,
    closed: bool,
}

impl View for Transfer {
    type V = TransferState;

    closed spec fn view(&self) -> TransferState {
        TransferState {
            pipe: self.pipe,
            resident: self.resident as int,
            owed_to: self.owed_to,
            stage: self.stage,
            moved: self.moved,
            closed: self.closed,
        }
    }
}

impl Transfer {
    #[verifier::type_invariant]
    spec fn inv(self) -> bool {
        self@.wf()
    }

    /// A mover over `pipe`, which must be empty.
    pub fn new(pipe: Pipe) -> (transfer: Transfer)
        ensures
            transfer@ == TransferState::fresh(pipe),
            transfer@.wf(),
    {
        Transfer { pipe, resident: 0, owed_to: 0, stage: Stage::Idle, moved: false, closed: false }
    }

    /// How many bytes the pipe holds.
    pub fn resident(&self) -> (bytes: usize)
        ensures
            bytes == self@.resident,
            bytes <= WINDOW,
    {
        proof {
            use_type_invariant(self);
        }
        self.resident
    }

    /// The descriptor that the bytes in the pipe are bound for, while the
    /// pipe holds any.
    pub fn owed_to(&self) -> (fd: Option<i32>)
        ensures
            fd == (if self@.resident > 0 {
                Some(self@.owed_to)
            } else {
                None
            }),
    {
        if self.resident > 0 {
            Some(self.owed_to)
        } else {
            None
        }
    }

    /// What the session waits for before the next attempt.
    pub fn awaits(&self) -> (wait: Wait)
        ensures
            wait == self@.awaits(),
    {
        if self.resident > 0 {
            Wait::Writable { fd: self.owed_to }
        } else {
            Wait::Readable
        }
    }

    /// Whether no attempt is under way.
    pub fn is_idle(&self) -> (idle: bool)
        ensures
            idle == (self@.stage is Idle),
    {
        match self.stage {
            Stage::Idle => true,
            _ => false,
        }
    }

    /// The call whose return the mover is waiting for, if any.
    pub fn pending(&self) -> (call: Option<SpliceCall>)
        ensures
            call == self@.pending(),
    {
        proof {
            use_type_invariant(self);
        }
        match self.stage {
            Stage::Idle => None,
            Stage::Draining { src, dst } => Some(
                self.pipe.splice_from(src, WINDOW - self.resident),
            ),
            Stage::Flushing => Some(self.pipe.splice_into(self.owed_to, self.resident)),
        }
    }

    /// Starts an attempt to move bytes from `src_fd`, which is readable, to
    /// `dst_fd`. Returns `None`, and changes nothing, while another attempt
    /// is under way.
    pub fn begin(&mut self, src_fd: i32, dst_fd: i32) -> (step: Option<Step>)
        ensures
            final(self)@.wf(),
            step is Some <==> old(self)@.stage is Idle,
            match old(self)@.begin(src_fd, dst_fd) {
                Some((next, s)) => final(self)@ == next && step == Some(s),
                None => final(self)@ == old(self)@ && step is None,
            },
    {
        proof {
            use_type_invariant(&*self);
        }
        match self.stage {
            Stage::Idle => {},
            _ => {
                return None;
            },
        }
        if self.resident > 0 {
            let call = self.pipe.splice_into(self.owed_to, self.resident);
            *self = Transfer {
                pipe: self.pipe,
                resident: self.resident,
                owed_to: self.owed_to,
                stage: Stage::Flushing,
                moved: false,
                closed: false,
            };
            Some(Step::Call(call))
        } else {
            let call = self.pipe.splice_from(src_fd, WINDOW);
            *self = Transfer {
                pipe: self.pipe,
                resident: 0,
                owed_to: self.owed_to,
                stage: Stage::Draining { src: src_fd, dst: dst_fd },
                moved: false,
                closed: false,
            };
            Some(Step::Call(call))
        }
    }

    /// Ends the filling: empties the pipe if it holds anything, else ends
    /// the attempt.
    fn settle(&mut self, closed: bool) -> (step: Step)
        requires
            old(self)@.stage is Draining,
            !old(self)@.closed,
        ensures
            final(self)@.wf(),
            (final(self)@, step) == (TransferState { closed, ..old(self)@ }).after_drain(),
    {
        proof {
            use_type_invariant(&*self);
        }
        if self.resident > 0 {
            let call = self.pipe.splice_into(self.owed_to, self.resident);
            *self = Transfer {
                pipe: self.pipe,
                resident: self.resident,
                owed_to: self.owed_to,
                stage: Stage::Flushing,
                moved: self.moved,
                closed,
            };
            Step::Call(call)
        } else {
            let outcome = if closed {
                connection_closed()
            } else if self.moved {
                Outcome::Progress
            } else {
                Outcome::NoProgress
            };
            self.rest();
            Step::Done(outcome)
        }
    }

    /// Ends the attempt.
    fn rest(&mut self)
        ensures
            final(self)@ == old(self)@.at_rest(),
            final(self)@.wf(),
    {
        proof {
            use_type_invariant(&*self);
        }
        *self = Transfer {
            pipe: self.pipe,
            resident: self.resident,
            owed_to: self.owed_to,
            stage: Stage::Idle,
            moved: false,
            closed: false,
        };
    }

    /// Takes what the awaited call returned and says what comes next.
    /// Returns `None`, and changes nothing, when no call is awaited or when
    /// `reply` counts more bytes than the call asked for.
    pub fn resume(&mut self, reply: Result<usize, Error>) -> (step: Option<Step>)
        ensures
            final(self)@.wf(),
            match old(self)@.resume(reply) {
                Some((next, s)) => final(self)@ == next && step == Some(s),
                None => final(self)@ == old(self)@ && step is None,
            },
    {
        proof {
            use_type_invariant(&*self);
        }
        match self.stage {
            Stage::Idle => None,
            Stage::Draining { src, dst } => {
                match reply {
                    Ok(n) => {
                        if n > WINDOW - self.resident {
                            None
                        } else if n == 0 {
                            Some(self.settle(true))
                        } else {
                            let total = self.resident + n;
                            if total < WINDOW {
                                *self = Transfer {
                                    pipe: self.pipe,
                                    resident: total,
                                    owed_to: dst,
                                    stage: self.stage,
                                    moved: true,
                                    closed: false,
                                };
                                Some(Step::Call(self.pipe.splice_from(src, WINDOW - total)))
                            } else {
                                *self = Transfer {
                                    pipe: self.pipe,
                                    resident: total,
                                    owed_to: dst,
                                    stage: Stage::Flushing,
                                    moved: true,
                                    closed: false,
                                };
                                Some(Step::Call(self.pipe.splice_into(dst, total)))
                            }
                        }
                    },
                    Err(Error::EAgain) => Some(self.settle(false)),
                    Err(Error::Other(errno)) => {
                        self.rest();
                        Some(Step::Done(other_error(errno)))
                    },
                }
            },
            Stage::Flushing => {
                match reply {
                    Ok(n) => {
                        if n > self.resident {
                            None
                        } else if n == 0 {
                            self.rest();
                            Some(Step::Done(connection_closed()))
                        } else if n < self.resident {
                            *self = Transfer {
                                pipe: self.pipe,
                                resident: self.resident - n,
                                owed_to: self.owed_to,
                                stage: Stage::Flushing,
                                moved: true,
                                closed: self.closed,
                            };
                            Some(
                                Step::Call(self.pipe.splice_into(self.owed_to, self.resident)),
                            )
                        } else {
                            let outcome = if self.closed {
                                connection_closed()
                            } else {
                                Outcome::Progress
                            };
                            *self = Transfer {
                                pipe: self.pipe,
                                resident: 0,
                                owed_to: self.owed_to,
                                stage: Stage::Idle,
                                moved: false,
                                closed: false,
                            };
                            Some(Step::Done(outcome))
                        }
                    },
                    Err(Error::EAgain) => {
                        let outcome = if self.moved {
                            Outcome::Progress
                        } else {
                            Outcome::NoProgress
                        };
                        self.rest();
                        Some(Step::Done(outcome))
                    },
                    Err(Error::Other(errno)) => {
                        self.rest();
                        Some(Step::Done(other_error(errno)))
                    },
                }
            },
        }
    }
}

} // verus!
