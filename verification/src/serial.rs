//! Trusted boundary to the physical serial link.
//!
//! The link is a byte-oriented duplex stream with no message boundaries of
//! its own; everything above it — framing, length-prefixed reads, checksums —
//! is verified. Only the raw open, write and read calls below are taken on
//! trust, and every link failure surfaces as [`Error::Io`].

use vstd::prelude::*;

use crate::error::Error;

verus! {

#[verifier::external_type_specification]
#[verifier::external_body]
pub struct ExSerialPort(serial2::SerialPort);

/// Relies on `serial2::SerialPort::open`: opens the named port, applies raw
/// settings with the given baud rate, and returns the port or the failure.
#[verifier::external_body]
pub(crate) fn serial_open(path: &str, baud_rate: u32) -> (r: Result<serial2::SerialPort, Error>) {
    match serial2::SerialPort::open(path, baud_rate) {
        Ok(port) => Ok(port),
        Err(_) => Err(Error::Io),
    }
}

/// Relies on `serial2::SerialPort::write_all`: on success the whole buffer
/// was handed to the link; on failure some prefix may already have been sent.
#[verifier::external_body]
pub(crate) fn serial_write_all(port: &serial2::SerialPort, data: &[u8]) -> (r: Result<(), Error>) {
    match port.write_all(data) {
        Ok(()) => Ok(()),
        Err(_) => Err(Error::Io),
    }
}

/// Relies on `serial2::SerialPort::read_exact`: on success the buffer was
/// filled completely, so exactly `n` bytes are returned.
#[verifier::external_body]
pub(crate) fn serial_read_exact(port: &serial2::SerialPort, n: usize) -> (r: Result<Vec<u8>, Error>)
    ensures
        r matches Ok(v) ==> v@.len() == n,
{
    let mut buf = vec![0u8; n];
    match port.read_exact(buf.as_mut_slice()) {
        Ok(()) => Ok(buf),
        Err(_) => Err(Error::Io),
    }
}

} // verus!
