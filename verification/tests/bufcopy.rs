use flopsy::bufcopy::{Buffered, IoCall, Stage, Step, BUFFER_SIZE};
use flopsy::splice::pipe::Error;
use flopsy::stream_util::{Outcome, Wait};

#[test]
fn one_read_is_followed_by_one_write_of_what_was_read() {
    let mut mover = Buffered::new();
    assert_eq!(mover.stage(), Stage::Idle);
    assert_eq!(mover.awaits(), Wait::Readable);
    assert_eq!(mover.pending(), None);
    assert_eq!(mover.begin(10, 11), Some(Step::Call(IoCall::Read { fd: 10, max: 16384 })));
    assert_eq!(mover.pending(), Some(IoCall::Read { fd: 10, max: 16384 }));
    assert_eq!(
        mover.resume(Ok(1000)),
        Some(Step::Call(IoCall::Write { fd: 11, from: 0, len: 1000 }))
    );
    assert_eq!(mover.resident(), 1000);
    assert_eq!(mover.resume(Ok(1000)), Some(Step::Done(Outcome::Progress)));
    assert_eq!(mover.stage(), Stage::Idle);
    assert_eq!(mover.resident(), 0);
    assert_eq!(mover.awaits(), Wait::Readable);
}

#[test]
fn partial_write_ends_the_attempt_and_the_rest_goes_first() {
    let mut mover = Buffered::new();
    mover.begin(10, 11);
    mover.resume(Ok(BUFFER_SIZE));
    // the one write took a part: the attempt is over, with progress
    assert_eq!(mover.resume(Ok(16000)), Some(Step::Done(Outcome::Progress)));
    assert_eq!(mover.stage(), Stage::Idle);
    assert_eq!(mover.resident(), 384);
    assert_eq!(mover.awaits(), Wait::Writable { fd: 11 });
    // the next attempt is the write of the rest, whatever became readable
    assert_eq!(
        mover.begin(11, 10),
        Some(Step::Call(IoCall::Write { fd: 11, from: 16000, len: 384 }))
    );
    assert_eq!(mover.resume(Ok(1)), Some(Step::Done(Outcome::Progress)));
    assert_eq!(
        mover.begin(10, 11),
        Some(Step::Call(IoCall::Write { fd: 11, from: 16001, len: 383 }))
    );
    assert_eq!(mover.resume(Ok(383)), Some(Step::Done(Outcome::Progress)));
    assert_eq!(mover.resident(), 0);
    // only now something is read again
    assert_eq!(mover.begin(11, 10), Some(Step::Call(IoCall::Read { fd: 11, max: 16384 })));
}

#[test]
fn write_that_would_block_keeps_the_bytes_and_is_no_error() {
    let mut mover = Buffered::new();
    mover.begin(10, 11);
    mover.resume(Ok(500));
    // something was read in this attempt
    assert_eq!(mover.resume(Err(Error::EAgain)), Some(Step::Done(Outcome::Progress)));
    assert_eq!(mover.resident(), 500);
    assert_eq!(mover.awaits(), Wait::Writable { fd: 11 });
    assert_eq!(
        mover.begin(10, 11),
        Some(Step::Call(IoCall::Write { fd: 11, from: 0, len: 500 }))
    );
    // nothing was read and nothing written in this one
    assert_eq!(mover.resume(Err(Error::EAgain)), Some(Step::Done(Outcome::NoProgress)));
    assert_eq!(mover.resident(), 500);
    mover.begin(10, 11);
    assert_eq!(mover.resume(Ok(500)), Some(Step::Done(Outcome::Progress)));
    assert_eq!(mover.awaits(), Wait::Readable);
}

#[test]
fn attempt_makes_one_read_and_one_write_at_most() {
    for (read, write) in [(9999usize, 1usize), (9999, 9999), (1, 1), (BUFFER_SIZE, 5)] {
        let mut mover = Buffered::new();
        let mut reads = 0;
        let mut writes = 0;
        let mut step = mover.begin(10, 11).unwrap();
        loop {
            step = match step {
                Step::Call(IoCall::Read { .. }) => {
                    reads += 1;
                    mover.resume(Ok(read)).unwrap()
                }
                Step::Call(IoCall::Write { from, len, .. }) => {
                    writes += 1;
                    assert_eq!((from, len), (0, read));
                    mover.resume(Ok(write)).unwrap()
                }
                Step::Done(outcome) => {
                    assert_eq!(outcome, Outcome::Progress);
                    break;
                }
            };
        }
        assert_eq!((reads, writes), (1, 1));
        assert_eq!(mover.resident(), read - write);
    }
}

#[test]
fn written_ranges_cover_the_read_in_order() {
    let mut mover = Buffered::new();
    let total = 9999;
    let mut next_from = 0;
    let mut chunk = 1;
    let mut reads = 0;
    while reads < 2 {
        match mover.begin(10, 11).unwrap() {
            Step::Call(IoCall::Read { .. }) => {
                reads += 1;
                if reads == 2 {
                    break;
                }
                assert_eq!(
                    mover.resume(Ok(total)),
                    Some(Step::Call(IoCall::Write { fd: 11, from: 0, len: total }))
                );
            }
            Step::Call(IoCall::Write { fd, from, len }) => {
                assert_eq!(fd, 11);
                assert_eq!(from, next_from);
                assert_eq!(len, total - from);
            }
            Step::Done(outcome) => panic!("an attempt starts with a call, not with {:?}", outcome),
        }
        let n = chunk.min(total - next_from);
        chunk = chunk * 2 + 1;
        next_from += n;
        assert_eq!(mover.resume(Ok(n)), Some(Step::Done(Outcome::Progress)));
    }
    assert_eq!(next_from, total);
}

#[test]
fn read_of_nothing_means_the_source_is_closed() {
    let mut mover = Buffered::new();
    mover.begin(10, 11);
    assert_eq!(mover.resume(Ok(0)), Some(Step::Done(Outcome::PeerClosed)));
}

#[test]
fn read_that_would_block_is_no_error() {
    let mut mover = Buffered::new();
    mover.begin(10, 11);
    assert_eq!(mover.resume(Err(Error::EAgain)), Some(Step::Done(Outcome::NoProgress)));
    assert_eq!(mover.begin(11, 10), Some(Step::Call(IoCall::Read { fd: 11, max: 16384 })));
}

#[test]
fn write_of_nothing_means_the_destination_is_closed() {
    let mut mover = Buffered::new();
    mover.begin(10, 11);
    mover.resume(Ok(5));
    assert_eq!(mover.resume(Ok(0)), Some(Step::Done(Outcome::PeerClosed)));
}

#[test]
fn failures_of_read_and_write_end_the_attempt() {
    let mut mover = Buffered::new();
    mover.begin(10, 11);
    assert_eq!(mover.resume(Err(Error::Other(104))), Some(Step::Done(Outcome::Failed(104))));
    mover.begin(10, 11);
    mover.resume(Ok(5));
    assert_eq!(mover.resume(Err(Error::Other(32))), Some(Step::Done(Outcome::Failed(32))));
    assert_eq!(mover.stage(), Stage::Idle);
}

#[test]
fn buffered_replies_that_cannot_be_are_refused() {
    let mut mover = Buffered::new();
    assert_eq!(mover.resume(Ok(1)), None);
    mover.begin(10, 11);
    assert_eq!(mover.begin(10, 11), None);
    assert_eq!(mover.resume(Ok(BUFFER_SIZE + 1)), None);
    assert_eq!(mover.stage(), Stage::Reading { src: 10, dst: 11 });
    mover.resume(Ok(5));
    assert_eq!(mover.resume(Ok(6)), None);
    assert_eq!(mover.stage(), Stage::Writing);
    assert_eq!(mover.resident(), 5);
    assert_eq!(mover.pending(), Some(IoCall::Write { fd: 11, from: 0, len: 5 }));
}
