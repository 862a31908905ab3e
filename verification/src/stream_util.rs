//! What one attempt to move bytes can come to, and what a session does
//! about it.

use vstd::prelude::*;

verus! {

/// How one attempt to move bytes from a readable socket to its peer ended.
#[derive(Clone, Copy, Debug, PartialEq, Eq, Structural)]
pub enum Outcome {
    /// Bytes were moved.
    Progress,
    /// Nothing could be moved without waiting.
    NoProgress,
    /// One side has closed the connection.
    PeerClosed,
    /// Any other failure, with its error number.
    Failed(i32),
}

impl Outcome {
    /// Only a closed peer or a failure ends the session.
    pub open spec fn spec_ends_session(self) -> bool {
        self is PeerClosed || self is Failed
    }

    /// Whether the session that saw this outcome is over.
    #[verifier::when_used_as_spec(spec_ends_session)]
    pub fn ends_session(self) -> (over: bool)
        ensures
            over == self.spec_ends_session(),
    {
        match self {
            Outcome::Progress => false,
            Outcome::NoProgress => false,
            Outcome::PeerClosed => true,
            Outcome::Failed(_) => true,
        }
    }
}

/// What a session waits for before the next attempt to move bytes.
#[derive(Clone, Copy, Debug, PartialEq, Eq, Structural)]
pub enum Wait {
    /// For either socket to become readable: nothing is held back.
    Readable,
    /// For `fd` to become writable: bytes are held back for it, and they
    /// go out before anything else comes in.
    Writable { fd: i32 },
}

/// One of the two sockets of a session.
#[derive(Clone, Copy, Debug, PartialEq, Eq, Structural)]
pub enum Side {
    /// The socket of the client.
    Client,
    /// The socket of the connection to the primary.
    Upstream,
}

/// The two sockets of a session, by their descriptors.
#[derive(Clone, Copy, Debug, PartialEq, Eq, Structural)]
pub struct Session {
    pub client_fd: i32,
    pub upstream_fd: i32,
}

impl Session {
    /// Bytes go from the socket that is readable to the other one.
    pub open spec fn spec_route(self, ready: Side) -> (i32, i32) {
        match ready {
            Side::Client => (self.client_fd, self.upstream_fd),
            Side::Upstream => (self.upstream_fd, self.client_fd),
        }
    }

    /// The source and the destination of the next attempt, given the side
    /// that has become readable.
    #[verifier::when_used_as_spec(spec_route)]
    pub fn route(self, ready: Side) -> (pair: (i32, i32))
        ensures
            pair == self.spec_route(ready),
    {
        match ready {
            Side::Client => (self.client_fd, self.upstream_fd),
            Side::Upstream => (self.upstream_fd, self.client_fd),
        }
    }

    /// Bytes that go to the client come from the primary, and all others
    /// from the client.
    pub open spec fn spec_toward(self, dst: i32) -> (i32, i32) {
        if dst == self.client_fd {
            (self.upstream_fd, self.client_fd)
        } else {
            (self.client_fd, self.upstream_fd)
        }
    }

    /// The source and the destination of an attempt that is made because
    /// `dst` has become writable.
    #[verifier::when_used_as_spec(spec_toward)]
    pub fn toward(self, dst: i32) -> (pair: (i32, i32))
        ensures
            pair == self.spec_toward(dst),
    {
        if dst == self.client_fd {
            (self.upstream_fd, self.client_fd)
        } else {
            (self.client_fd, self.upstream_fd)
        }
    }
}

} // verus!
