use std::io;

use snbc::error::Error;
use snbc::printer::{after_flush, after_write, Printer};
use snbc::sink::Sink;

/// Takes at most `chunk` bytes per write and fails once `limit` bytes were taken.
struct Trickle {
    taken: Vec<u8>,
    chunk: usize,
    limit: usize,
    flushes: usize,
}

impl Sink for Trickle {
    fn write(&mut self, buf: &[u8]) -> Result<usize, io::Error> {
        if self.taken.len() >= self.limit {
            return Err(io::Error::new(io::ErrorKind::BrokenPipe, "closed"));
        }
        let n = buf.len().min(self.chunk);
        self.taken.extend_from_slice(&buf[..n]);
        Ok(n)
    }

    fn flush(&mut self) -> Result<(), io::Error> {
        self.flushes += 1;
        Ok(())
    }
}

struct Stuck;

impl Sink for Stuck {
    fn write(&mut self, _buf: &[u8]) -> Result<usize, io::Error> {
        Ok(0)
    }

    fn flush(&mut self) -> Result<(), io::Error> {
        Ok(())
    }
}

/// Takes every byte, but fails to flush.
struct NoFlush(Vec<u8>);

impl Sink for NoFlush {
    fn write(&mut self, buf: &[u8]) -> Result<usize, io::Error> {
        self.0.extend_from_slice(buf);
        Ok(buf.len())
    }

    fn flush(&mut self) -> Result<(), io::Error> {
        Err(io::Error::new(io::ErrorKind::Interrupted, "device reset"))
    }
}

#[test]
fn nothing_reaches_the_sink_before_flush() {
    let mut p = Printer::new(Vec::<u8>::new(), None, None);
    p.feed(2).unwrap();
    assert!(p.get_ref().is_empty());
    p.flush().unwrap();
    assert_eq!(p.get_ref(), &vec![0x0a, 0x0a]);
    assert!(p.buffer().is_empty());
    p.cashdraw(2).unwrap();
    p.flush().unwrap();
    assert_eq!(p.into_inner(), vec![0x0a, 0x0a, 0x1b, 0x70, 0x00]);
}

#[test]
fn flush_retries_partial_writes() {
    let sink = Trickle { taken: Vec::new(), chunk: 2, limit: usize::MAX, flushes: 0 };
    let mut p = Printer::new(sink, None, None);
    p.print("hello").unwrap();
    p.flush().unwrap();
    assert_eq!(p.get_ref().taken, b"hello");
    assert_eq!(p.get_ref().flushes, 1);
}

#[test]
fn failed_flush_keeps_what_was_not_taken() {
    let sink = Trickle { taken: Vec::new(), chunk: 2, limit: 2, flushes: 0 };
    let mut p = Printer::new(sink, None, None);
    p.print("hello").unwrap();
    match p.flush() {
        Err(Error::Io(e)) => assert_eq!(e.kind(), io::ErrorKind::BrokenPipe),
        _ => panic!("the sink's error was expected"),
    }
    assert_eq!(p.get_ref().taken, b"he");
    assert_eq!(p.buffer(), b"llo");
    assert_eq!(p.get_ref().flushes, 0);
}

#[test]
fn sink_taking_nothing_is_an_error() {
    let mut p = Printer::new(Stuck, None, None);
    p.feed(1).unwrap();
    match p.flush() {
        Err(Error::Io(e)) => assert_eq!(e.kind(), io::ErrorKind::WriteZero),
        _ => panic!("a write-zero error was expected"),
    }
    assert_eq!(p.buffer(), &[0x0a][..]);
}

#[test]
fn write_answers_are_read_exactly() {
    assert_eq!(after_write(3, 10, Ok(4)).unwrap(), 7);
    assert_eq!(after_write(0, 1, Ok(1)).unwrap(), 1);
    match after_write(3, 10, Ok(0)) {
        Err(Error::Io(e)) => assert_eq!(e.kind(), io::ErrorKind::WriteZero),
        _ => panic!("a write-zero error was expected"),
    }
    match after_write(3, 10, Err(io::Error::new(io::ErrorKind::TimedOut, "usb stall"))) {
        Err(Error::Io(e)) => {
            assert_eq!(e.kind(), io::ErrorKind::TimedOut);
            assert_eq!(e.to_string(), "usb stall");
        }
        _ => panic!("the sink's error was expected"),
    }
}

#[test]
fn flush_answers_are_read_exactly() {
    assert!(after_flush(Ok(())).is_ok());
    match after_flush(Err(io::Error::new(io::ErrorKind::BrokenPipe, "gone"))) {
        Err(Error::Io(e)) => assert_eq!(e.to_string(), "gone"),
        _ => panic!("the sink's error was expected"),
    }
}

#[test]
fn failing_sink_flush_is_returned_as_it_came() {
    let mut p = Printer::new(NoFlush(Vec::new()), None, None);
    p.feed(1).unwrap();
    match p.flush() {
        Err(Error::Io(e)) => assert_eq!(e.to_string(), "device reset"),
        _ => panic!("the sink's flush error was expected"),
    }
    assert_eq!(p.get_ref().0, vec![0x0a]);
    assert!(p.buffer().is_empty());
}
