//! Serial transport boundary: opening a named device, writing raw
//! payloads, and releasing the handle. The handle is scoped to one
//! logical operation and is closed on every exit path.
//!
//! An open handle is modelled by names for what it is connected to
//! (port name, baud rate, timeout) and for the log of the payloads
//! accepted through it so far. The trusted write appends to that log
//! exactly when its single write call succeeds, so callers' contracts
//! can fix which payloads were handed over, and in what order.

use vstd::prelude::*;

verus! {

/// Failure of the serial transport.
#[derive(Clone, Copy, Debug, PartialEq, Eq, Structural)]
pub enum TransportError {
    /// The device could not be opened: absent, busy, or not permitted.
    OpenFailed,
    /// A write timed out or hit an I/O error.
    WriteFailed,
}

#[verifier::external_type_specification]
#[verifier::external_body]
pub struct ExSerialPortBuilder(serialport::SerialPortBuilder);

#[verifier::external_type_specification]
#[verifier::external_body]
pub struct ExTTYPort(serialport::TTYPort);

/// The port name a builder was made for.
pub uninterp spec fn builder_port_name(builder: serialport::SerialPortBuilder) -> Seq<char>;

/// The baud rate a builder was made for.
pub uninterp spec fn builder_baud_rate(builder: serialport::SerialPortBuilder) -> u32;

/// The read/write timeout, in milliseconds, a builder carries.
pub uninterp spec fn builder_timeout_millis(builder: serialport::SerialPortBuilder) -> u64;

/// The name of the port an open handle is connected to.
pub uninterp spec fn port_name_of(port: serialport::TTYPort) -> Seq<char>;

/// The baud rate an open handle was opened at.
pub uninterp spec fn port_baud_rate_of(port: serialport::TTYPort) -> u32;

/// The timeout, in milliseconds, an open handle was opened with.
pub uninterp spec fn port_timeout_millis_of(port: serialport::TTYPort) -> u64;

/// The payloads accepted by write calls that returned success on an
/// open handle, in order. As with the underlying single write call,
/// the device may have taken fewer bytes than a recorded payload: no
/// partial-write recovery is attempted.
pub uninterp spec fn port_writes_of(port: serialport::TTYPort) -> Seq<Seq<char>>;

/// Relies on serialport::new: a builder for the named port at the
/// given baud rate, with the crate's defaults for the remaining
/// settings — in particular a zero-millisecond timeout.
#[verifier::external_body]
fn builder_for(name: &str, baud_rate: u32) -> (r: serialport::SerialPortBuilder)
    ensures
        builder_port_name(r) == name@,
        builder_baud_rate(r) == baud_rate,
        builder_timeout_millis(r) == 0,
{
    serialport::new(name, baud_rate)
}

/// Relies on SerialPortBuilder::timeout: the same builder with its
/// read/write timeout replaced; nothing else changes.
#[verifier::external_body]
fn builder_with_timeout(
    builder: serialport::SerialPortBuilder,
    millis: u64,
) -> (r: serialport::SerialPortBuilder)
    ensures
        builder_port_name(r) == builder_port_name(builder),
        builder_baud_rate(r) == builder_baud_rate(builder),
        builder_timeout_millis(r) == millis,
{
    builder.timeout(std::time::Duration::from_millis(millis))
}

/// Relies on SerialPortBuilder::open_native: opens the builder's
/// port, failing when the device is absent, busy or not permitted.
/// Whether it succeeds depends on the machine; every failure is
/// reported as `OpenFailed`. A successful open is connected to the
/// builder's port, at its baud rate and timeout, with nothing yet
/// written.
#[verifier::external_body]
fn builder_open(builder: serialport::SerialPortBuilder) -> (r: Result<
    serialport::TTYPort,
    TransportError,
>)
    ensures
        r is Err ==> r->Err_0 == TransportError::OpenFailed,
        r is Ok ==> port_name_of(r->Ok_0) == builder_port_name(builder) && port_baud_rate_of(
            r->Ok_0,
        ) == builder_baud_rate(builder) && port_timeout_millis_of(r->Ok_0)
            == builder_timeout_millis(builder) && port_writes_of(r->Ok_0)
            == Seq::<Seq<char>>::empty(),
{
    match builder.open_native() {
        Ok(port) => Ok(port),
        Err(_) => Err(TransportError::OpenFailed),
    }
}

/// Relies on TTYPort's std::io::Write impl: offers the bytes of
/// `data` to the device in one write call, which may accept fewer
/// bytes and still succeed; no partial write is retried. Whether it
/// succeeds depends on the device; every failure is reported as
/// `WriteFailed`. A write call that succeeds appends its payload to
/// the handle's write log; a failed one leaves the log as it was;
/// the connection itself is unchanged.
#[verifier::external_body]
fn port_write(port: &mut serialport::TTYPort, data: &str) -> (r: Result<(), TransportError>)
    ensures
        r is Err ==> r->Err_0 == TransportError::WriteFailed,
        port_name_of(*final(port)) == port_name_of(*old(port)),
        port_baud_rate_of(*final(port)) == port_baud_rate_of(*old(port)),
        port_timeout_millis_of(*final(port)) == port_timeout_millis_of(*old(port)),
        port_writes_of(*final(port)) == if r is Ok {
            port_writes_of(*old(port)).push(data@)
        } else {
            port_writes_of(*old(port))
        },
{
    match std::io::Write::write(port, data.as_bytes()) {
        Ok(_) => Ok(()),
        Err(_) => Err(TransportError::WriteFailed),
    }
}

/// Relies on TTYPort's Drop impl: releases the device handle.
/// Closing never fails.
#[verifier::external_body]
pub(crate) fn close_port(port: serialport::TTYPort) {
    std::mem::drop(port);
}

/// Opens the named device at `baud_rate`, with an optional read/write
/// timeout in milliseconds (the crate's zero-millisecond default
/// where none is given). A failure is always `OpenFailed`; a success
/// is a handle to exactly the named device, with an empty write log.
pub fn open_transport(name: &str, baud_rate: u32, timeout_millis: Option<u64>) -> (r: Result<
    serialport::TTYPort,
    TransportError,
>)
    ensures
        r is Err ==> r->Err_0 == TransportError::OpenFailed,
        r is Ok ==> port_name_of(r->Ok_0) == name@ && port_baud_rate_of(r->Ok_0) == baud_rate
            && port_timeout_millis_of(r->Ok_0) == (match timeout_millis {
            Some(millis) => millis,
            None => 0,
        }) && port_writes_of(r->Ok_0) == Seq::<Seq<char>>::empty(),
{
    let builder = builder_for(name, baud_rate);
    let builder = match timeout_millis {
        Some(millis) => builder_with_timeout(builder, millis),
        None => builder,
    };
    builder_open(builder)
}

/// Offers the password payload and then the initial-command payload,
/// in that order, as two sequential writes; a failed first write
/// aborts the second, and no partial write is recovered. A failure
/// is always `WriteFailed`. On success exactly the two payloads, in
/// that order, were appended to the write log; on failure at most
/// the password was.
pub fn send_unlock(
    port: &mut serialport::TTYPort,
    password: &str,
    initial_command: &str,
) -> (r: Result<(), TransportError>)
    ensures
        port_name_of(*final(port)) == port_name_of(*old(port)),
        port_baud_rate_of(*final(port)) == port_baud_rate_of(*old(port)),
        port_timeout_millis_of(*final(port)) == port_timeout_millis_of(*old(port)),
        r is Ok ==> port_writes_of(*final(port)) == port_writes_of(*old(port)).push(
            password@,
        ).push(initial_command@),
        r is Err ==> r->Err_0 == TransportError::WriteFailed && (port_writes_of(*final(port))
            == port_writes_of(*old(port)) || port_writes_of(*final(port)) == port_writes_of(
            *old(port),
        ).push(password@)),
{
    match port_write(port, password) {
        Err(e) => Err(e),
        Ok(()) => match port_write(port, initial_command) {
            Err(e) => Err(e),
            Ok(()) => Ok(()),
        },
    }
}

} // verus!
