use std::time::{Duration, Instant};

use biometric::pipe::{Cursor, PipeError, Transfer, EINTR};
use biometric::protocol::RESPONSE_HARDENED;
use biometric::wait::{
    AfterPoll, ByteWait, PollTimeout, Polled, HELPER_INIT_TIMEOUT_NANOS, NANOS_PER_SECOND,
};
use rustix::event::{poll, PollFd, PollFlags, Timespec};
use rustix::fd::{AsFd, BorrowedFd};

fn moved(result: Result<usize, rustix::io::Errno>) -> Transfer {
    match result {
        Ok(n) => Transfer::Moved(n),
        Err(error) => Transfer::Failed(error.raw_os_error()),
    }
}

fn write_all_fd(fd: BorrowedFd<'_>, buffer: &[u8]) -> Result<(), PipeError> {
    let mut cursor = Cursor::new(buffer.len());
    while !cursor.is_complete() {
        cursor.after_write(moved(rustix::io::write(fd, &buffer[cursor.position()..])))?;
    }
    Ok(())
}

fn read_exact_fd(fd: BorrowedFd<'_>, buffer: &mut [u8]) -> Result<(), PipeError> {
    let mut cursor = Cursor::new(buffer.len());
    while !cursor.is_complete() {
        let rest = &mut buffer[cursor.position()..];
        cursor.after_read(moved(rustix::io::read(fd, rest)))?;
    }
    Ok(())
}

fn read_byte_with_timeout(fd: BorrowedFd<'_>, timeout: Duration) -> Result<u8, PipeError> {
    let epoch = Instant::now();
    let wait = ByteWait::new(0, timeout.as_nanos());
    loop {
        let left = wait.poll_timeout(epoch.elapsed().as_nanos())?;
        let timespec = Timespec { tv_sec: left.tv_sec, tv_nsec: left.tv_nsec };
        let mut descriptor = [PollFd::new(&fd, PollFlags::IN)];
        let polled = match poll(&mut descriptor, Some(&timespec)) {
            Ok(n) => Polled::Ready(n),
            Err(error) => Polled::Failed(error.raw_os_error()),
        };
        match wait.after_poll(polled) {
            AfterPoll::WaitAgain => {}
            AfterPoll::ReadByte => {
                let mut response = [0_u8; 1];
                read_exact_fd(fd, &mut response)?;
                return Ok(response[0]);
            }
            AfterPoll::Fail(error) => return Err(error),
        }
    }
}

#[test]
fn unbuffered_pipe_io_roundtrips() {
    let (reader, writer) = rustix::pipe::pipe().unwrap();
    write_all_fd(writer.as_fd(), b"vault key bytes").unwrap();
    let mut output = [0_u8; 15];
    read_exact_fd(reader.as_fd(), &mut output).unwrap();
    assert_eq!(&output, b"vault key bytes");
}

#[test]
fn helper_response_wait_is_bounded() {
    let (reader, _writer) = rustix::pipe::pipe().unwrap();
    let error = read_byte_with_timeout(reader.as_fd(), Duration::from_millis(10)).unwrap_err();
    assert_eq!(error, PipeError::TimedOut);
}

#[test]
fn helper_response_is_read_before_timeout() {
    let (reader, writer) = rustix::pipe::pipe().unwrap();
    write_all_fd(writer.as_fd(), &[RESPONSE_HARDENED]).unwrap();
    assert_eq!(
        read_byte_with_timeout(reader.as_fd(), Duration::from_secs(1)).unwrap(),
        RESPONSE_HARDENED
    );
}

#[test]
fn a_closed_pipe_ends_a_read() {
    let (reader, writer) = rustix::pipe::pipe().unwrap();
    write_all_fd(writer.as_fd(), b"short").unwrap();
    drop(writer);
    let mut output = [0_u8; 15];
    assert_eq!(read_exact_fd(reader.as_fd(), &mut output), Err(PipeError::UnexpectedEof));
    assert_eq!(&output[..5], b"short");
    assert_eq!(&output[5..], &[0_u8; 10]);
}

#[test]
fn a_failed_write_has_not_sent_all() {
    let mut cursor = Cursor::new(10);
    assert_eq!(cursor.after_write(Transfer::Moved(4)), Ok(()));
    assert_eq!(cursor.after_write(Transfer::Moved(0)), Err(PipeError::WriteZero));
    assert_eq!(cursor.position(), 4);
    assert!(!cursor.is_complete());
}

#[test]
fn empty_transfers_make_no_call() {
    assert!(Cursor::new(0).is_complete());
    assert!(!Cursor::new(1).is_complete());
}

#[test]
fn interrupted_calls_are_made_again() {
    let interrupted = rustix::io::Errno::INTR.raw_os_error();
    assert_eq!(interrupted, EINTR);
    let mut cursor = Cursor::new(10);
    assert_eq!(cursor.after_read(Transfer::Moved(4)), Ok(()));
    assert_eq!(cursor.after_read(Transfer::Failed(interrupted)), Ok(()));
    assert_eq!(cursor.position(), 4);
    assert_eq!(cursor.after_write(Transfer::Failed(interrupted)), Ok(()));
    assert_eq!(cursor.after_write(Transfer::Moved(6)), Ok(()));
    assert!(cursor.is_complete());
}

#[test]
fn calls_that_move_nothing_fail() {
    let mut cursor = Cursor::new(10);
    assert_eq!(cursor.after_read(Transfer::Moved(0)), Err(PipeError::UnexpectedEof));
    assert_eq!(cursor.after_write(Transfer::Moved(0)), Err(PipeError::WriteZero));
    assert_eq!(cursor.position(), 0);
}

#[test]
fn system_errors_end_a_transfer() {
    let broken = rustix::io::Errno::PIPE.raw_os_error();
    let mut cursor = Cursor::new(10);
    assert_eq!(cursor.after_write(Transfer::Failed(broken)), Err(PipeError::Os(broken)));
    assert_eq!(cursor.after_read(Transfer::Failed(broken)), Err(PipeError::Os(broken)));
}

#[test]
fn pipe_errors_have_messages() {
    let text = |error: PipeError| error.message();
    assert_eq!(text(PipeError::UnexpectedEof).unwrap(), "biometric helper pipe closed");
    assert_eq!(text(PipeError::WriteZero).unwrap(), "failed to write biometric helper pipe");
    assert_eq!(text(PipeError::TimedOut).unwrap(), "timed out waiting for biometric helper");
    assert_eq!(text(PipeError::Os(32)), None);
}

#[test]
fn the_time_left_is_split_into_seconds() {
    assert_eq!(HELPER_INIT_TIMEOUT_NANOS, Duration::from_secs(10).as_nanos());
    let wait = ByteWait::new(5, 2 * NANOS_PER_SECOND + 30);
    assert_eq!(wait.poll_timeout(5), Ok(PollTimeout { tv_sec: 2, tv_nsec: 30 }));
    assert_eq!(wait.poll_timeout(36), Ok(PollTimeout { tv_sec: 1, tv_nsec: 999_999_999 }));
    assert_eq!(
        wait.poll_timeout(2 * NANOS_PER_SECOND + 34),
        Ok(PollTimeout { tv_sec: 0, tv_nsec: 1 })
    );
    assert_eq!(wait.poll_timeout(2 * NANOS_PER_SECOND + 35), Err(PipeError::TimedOut));
    assert_eq!(wait.poll_timeout(u128::MAX), Err(PipeError::TimedOut));
}

#[test]
fn an_interrupted_wait_ends_with_the_timeout() {
    let interrupted = rustix::io::Errno::INTR.raw_os_error();
    let wait = ByteWait::new(0, 3);
    for now in 0..3 {
        assert!(wait.poll_timeout(now).is_ok());
        assert_eq!(wait.after_poll(Polled::Failed(interrupted)), AfterPoll::WaitAgain);
    }
    assert_eq!(wait.poll_timeout(3), Err(PipeError::TimedOut));
}

#[test]
fn polls_are_followed_up() {
    let wait = ByteWait::new(0, 1);
    let interrupted = rustix::io::Errno::INTR.raw_os_error();
    let invalid = rustix::io::Errno::INVAL.raw_os_error();
    assert_eq!(wait.after_poll(Polled::Ready(0)), AfterPoll::Fail(PipeError::TimedOut));
    assert_eq!(wait.after_poll(Polled::Ready(1)), AfterPoll::ReadByte);
    assert_eq!(wait.after_poll(Polled::Failed(interrupted)), AfterPoll::WaitAgain);
    assert_eq!(
        wait.after_poll(Polled::Failed(invalid)),
        AfterPoll::Fail(PipeError::Os(invalid))
    );
}
