//! The byte sink a printer writes to: a file, a socket, a USB endpoint, or memory.
use vstd::prelude::*;

verus! {

/// A transport that accepts raw bytes and can be flushed.
pub trait Sink {
    /// Offers `buf` to the transport; on success returns how many of its leading bytes were taken.
    fn write(&mut self, buf: &[u8]) -> (r: Result<usize, std::io::Error>)
        ensures
            r matches Ok(n) ==> n <= buf@.len(),
    ;

    /// Pushes whatever the transport still holds on to the device.
    fn flush(&mut self) -> (r: Result<(), std::io::Error>);
}

/// An in-memory sink: every byte written is appended to the vector.
impl Sink for Vec<u8> {
    fn write(&mut self, buf: &[u8]) -> (r: Result<usize, std::io::Error>)
        ensures
            final(self)@ == old(self)@ + buf@,
            r matches Ok(n) && n == buf@.len(),
    {
        self.extend_from_slice(buf);
        assert(self@ =~= old(self)@ + buf@);
        Ok(buf.len())
    }

    fn flush(&mut self) -> (r: Result<(), std::io::Error>) {
        Ok(())
    }
}

} // verus!
