//! The kernel pipe that a session's bytes pass through, and the reading of
//! what a `splice(2)` call returned.

use vstd::prelude::*;

verus! {

/// The two ends of a pipe, as the descriptors that the kernel gave.
#[derive(Clone, Copy, Debug, PartialEq, Eq, Structural)]
pub struct Pipe {
    pub read_fd: i32,
    pub write_fd: i32,
}

/// One `splice(2)` call to make: move up to `len` bytes from `fd_in` to
/// `fd_out`, without blocking.
#[derive(Clone, Copy, Debug, PartialEq, Eq, Structural)]
pub struct SpliceCall {
    pub fd_in: i32,
    pub fd_out: i32,
    pub len: usize,
}

/// Why a `splice(2)` call moved nothing.
#[derive(Clone, Copy, Debug, PartialEq, Eq, Structural)]
pub enum Error {
    /// The call would have had to wait.
    EAgain,
    /// Any other failure, with its error number.
    Other(i32),
}

impl Pipe {
    /// A pipe over the descriptors of its read end and its write end.
    pub fn new(read_fd: i32, write_fd: i32) -> (pipe: Pipe)
        ensures
            pipe == (Pipe { read_fd, write_fd }),
    {
        Pipe { read_fd, write_fd }
    }

    /// The call that moves up to `len` bytes from `src_fd` into the pipe.
    pub fn splice_from(&self, src_fd: i32, len: usize) -> (call: SpliceCall)
        ensures
            call == (SpliceCall { fd_in: src_fd, fd_out: self.write_fd, len }),
    {
        SpliceCall { fd_in: src_fd, fd_out: self.write_fd, len }
    }

    /// The call that moves up to `len` bytes out of the pipe into `dst_fd`.
    pub fn splice_into(&self, dst_fd: i32, len: usize) -> (call: SpliceCall)
        ensures
            call == (SpliceCall { fd_in: self.read_fd, fd_out: dst_fd, len }),
    {
        SpliceCall { fd_in: self.read_fd, fd_out: dst_fd, len }
    }
}

/// What a return value of `splice(2)` means, given the two error numbers
/// `again` and `would_block` by which the platform says that a call would
/// have had to wait: a negative return is a failure, told apart by `errno`,
/// and any other is the number of bytes moved.
pub open spec fn reading(ret: isize, errno: i32, again: i32, would_block: i32) -> Result<
    usize,
    Error,
> {
    if ret < 0 {
        if errno == again || errno == would_block {
            Err(Error::EAgain)
        } else {
            Err(Error::Other(errno))
        }
    } else {
        Ok(ret as usize)
    }
}

/// Reads a return value of `splice(2)` against given error numbers.
pub fn classify_with(ret: isize, errno: i32, again: i32, would_block: i32) -> (result: Result<
    usize,
    Error,
>)
    ensures
        result == reading(ret, errno, again, would_block),
{
    if ret < 0 {
        if errno == again || errno == would_block {
            Err(Error::EAgain)
        } else {
            Err(Error::Other(errno))
        }
    } else {
        Ok(ret as usize)
    }
}

/// `libc::EAGAIN`, the platform's error number for "try again". Its value
/// differs between platforms, so nothing is claimed of it.
#[verifier::external_body]
fn again_code() -> i32 {
    libc::EAGAIN
}

/// `libc::EWOULDBLOCK`, the platform's error number for "would block". Its
/// value differs between platforms, so nothing is claimed of it.
#[verifier::external_body]
fn would_block_code() -> i32 {
    libc::EWOULDBLOCK
}

/// Reads a return value of `splice(2)` and the `errno` that went with it,
/// against this platform's error numbers.
///
/// A return that is not negative is the number of bytes moved, whatever
/// `errno` holds. A negative one is an error: `EAgain` for the platform's two
/// "would block" numbers, `Other` with `errno` for the rest.
pub fn classify(ret: isize, errno: i32) -> (result: Result<usize, Error>)
    ensures
        exists|again: i32, would_block: i32| result == reading(ret, errno, again, would_block),
        ret >= 0 ==> result == Ok::<usize, Error>(ret as usize),
        ret < 0 ==> result == Err::<usize, Error>(Error::EAgain) || result == Err::<usize, Error>(
            Error::Other(errno),
        ),
{
    classify_with(ret, errno, again_code(), would_block_code())
}

} // verus!
