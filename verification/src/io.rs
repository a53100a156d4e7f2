//! Descriptor-based stream I/O.
//!
//! A [`Fd`] owns one open stream endpoint inside the firmware's table of
//! open streams, identified by a small integer.  Handles are created only by
//! [`listen`] and [`Fd::accept`], are move-only (no copy, no clone), and are
//! destroyed by [`Fd::close`], which consumes the value — after a close the
//! handle no longer exists, so no further operation can be written on it.
//! A handle returned by `accept` is independent of the listening handle it
//! came from: closing either leaves the other open.

use vstd::prelude::*;

use crate::Buf;
use crate::CallFrame;
use crate::Firmware;
use crate::ecall;

verus! {

/// Call number of the descriptor-close operation.
pub const CALL_CLOSE: u32 = 0x130;
/// Call number of the descriptor-write operation.
pub const CALL_WRITE: u32 = 0x131;
/// Call number of the listen operation.
pub const CALL_LISTEN: u32 = 0x140;
/// Call number of the accept operation.
pub const CALL_ACCEPT: u32 = 0x141;

/// The reserved "no handle" value: an accept reply equal to this means no
/// connection, never a usable descriptor.
pub const NO_HANDLE: u32 = 0xffff_ffff;

/// An owned descriptor for one open stream endpoint.
///
/// The field is private: the only ways to obtain a handle are [`listen`] and
/// [`Fd::accept`], and the only way to give one up is [`Fd::close`], which
/// takes the value by move.  The identifier inside is meaningful only to the
/// firmware this client talks to.
pub struct Fd {
    id: u32,
}

impl Fd {
    /// The identifier this handle carries.
    pub closed spec fn id_spec(&self) -> u32 {
        self.id
    }

    /// Read the identifier without giving up the handle, for display and for
    /// comparing against firmware replies.
    pub fn id(&self) -> (r: u32)
        ensures
            r == self.id_spec(),
    {
        self.id
    }

    /// The frame [`Fd::write`] hands to the firmware: exactly the handle
    /// identifier, the data's start address and the data's byte length.
    pub fn write_frame(&self, data: Buf) -> (f: CallFrame)
        ensures
            f == (CallFrame {
                num: CALL_WRITE,
                a0: self.id_spec(),
                a1: data.addr,
                a2: data.len,
                a3: 0,
                a4: 0,
            }),
    {
        crate::frame3(CALL_WRITE, self.id, data.addr, data.len)
    }

    /// Send a byte buffer over this stream and surface the firmware's count
    /// of accepted bytes unchanged; any non-zero status becomes the unit
    /// failure.  Callable repeatedly while the handle is open.
    pub fn write<F: Firmware>(&self, fw: &mut F, data: Buf) -> (r: Result<u32, ()>) {
        let f = self.write_frame(data);
        write_of(crate::classify(fw.trap(f)))
    }

    /// Wait for an inbound connection on this stream and hand it back as a
    /// new, independent handle.  The reply [`NO_HANDLE`] means no connection
    /// and becomes the unit failure — see [`accept_of`] for the guarantee
    /// that no handle equal to the sentinel is ever constructed.  Blocks
    /// until the firmware responds.
    pub fn accept<F: Firmware>(&self, fw: &mut F) -> (r: Result<Fd, ()>)
        ensures
            r matches Ok(fd) ==> fd.id_spec() != NO_HANDLE,
    {
        accept_of(ecall(fw, CALL_ACCEPT, self.id))
    }

    /// Close this stream, consuming the handle: after this call the value no
    /// longer exists and its identifier must not be used again by this
    /// client.  The firmware's status is discarded — the handle is gone on
    /// this side whatever the firmware thought of the close.
    pub fn close<F: Firmware>(self, fw: &mut F) {
        let _ = ecall(fw, CALL_CLOSE, self.id);
    }
}

/// How a classified listen reply becomes a handle: a success payload is
/// taken as the new identifier, any failure becomes the unit failure.
pub fn listen_of(r: Result<u32, u32>) -> (out: Result<Fd, ()>)
    ensures
        r matches Ok(v) ==> (out matches Ok(fd) && fd.id_spec() == v),
        r is Err ==> out is Err,
{
    match r {
        Ok(v) => Ok(Fd { id: v }),
        Err(_) => Err(()),
    }
}

/// How a classified write reply is surfaced: the firmware's byte count
/// passes through unchanged on success, any failure becomes the unit
/// failure.
pub fn write_of(r: Result<u32, u32>) -> (out: Result<u32, ()>)
    ensures
        r matches Ok(v) ==> out == Ok::<u32, ()>(v),
        r is Err ==> out == Err::<u32, ()>(()),
{
    match r {
        Ok(v) => Ok(v),
        Err(_) => Err(()),
    }
}

/// How a classified accept reply becomes a handle: the sentinel
/// [`NO_HANDLE`] maps to the unit failure, every other success payload
/// becomes a new open handle carrying exactly that value, and a handle equal
/// to the sentinel is never constructed.
pub fn accept_of(r: Result<u32, u32>) -> (out: Result<Fd, ()>)
    ensures
        r matches Ok(v) ==> (if v != NO_HANDLE {
            out matches Ok(fd) && fd.id_spec() == v
        } else {
            out is Err
        }),
        r is Err ==> out is Err,
        out matches Ok(fd) ==> fd.id_spec() != NO_HANDLE,
{
    match r {
        Ok(v) => {
            if v == NO_HANDLE {
                Err(())
            } else {
                Ok(Fd { id: v })
            }
        },
        Err(_) => Err(()),
    }
}

/// Open a listening stream bound to the given port and hand back its handle
/// in the open state; a non-zero status becomes the unit failure.
pub fn listen<F: Firmware>(fw: &mut F, port: u32) -> (r: Result<Fd, ()>) {
    listen_of(ecall(fw, CALL_LISTEN, port))
}

} // verus!
