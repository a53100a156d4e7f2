//! Client library for a firmware reached through a single trap instruction.
//!
//! Every operation the firmware offers is selected by a fixed call number and
//! takes up to five 32-bit argument slots; on return the call-number slot
//! carries a status (zero means success) and the first argument slot carries
//! the success value.  This crate encodes calls into that register layout,
//! classifies the raw replies, and builds a typed surface on top: formatted
//! output, timing, process exit, wireless control ([`wifi`]) and
//! descriptor-based stream I/O ([`io`]).
//!
//! The trap itself is a privileged, target-specific instruction, so it is not
//! part of this crate: callers supply it as an implementation of [`Firmware`].
//! Nothing is assumed about the replies a firmware gives; everything this
//! library promises holds for every possible reply.

use vstd::prelude::*;

pub mod io;
pub mod wifi;

verus! {

/// Call number of the process-exit operation.
pub const CALL_EXIT: u32 = 0;
/// Call number of the serial print operation.
pub const CALL_PRINT: u32 = 1;
/// Call number of the bounded string-compare operation.
pub const CALL_STRCMP: u32 = 2;
/// Call number of the millisecond delay operation.
pub const CALL_DELAY: u32 = 0x10;

/// A borrowed byte buffer as the firmware sees it: a raw start address and a
/// byte length, each packed into one 32-bit argument slot.
///
/// The bytes at `addr` must stay valid and unmodified for the duration of any
/// call the buffer is passed to; the caller keeps ownership.
#[derive(Clone, Copy, Debug, PartialEq, Eq, Structural)]
pub struct Buf {
    /// Start address of the buffer, truncated or widened to 32 bits.
    pub addr: u32,
    /// Length of the buffer in bytes.
    pub len: u32,
}

/// The register image handed to the trap instruction: a call number and five
/// argument slots.  Shapes with fewer arguments leave the unused slots zero.
#[derive(Clone, Copy, Debug, PartialEq, Eq, Structural)]
pub struct CallFrame {
    /// The call number selecting the firmware operation.
    pub num: u32,
    /// First argument slot; overwritten with the success value on return.
    pub a0: u32,
    /// Second argument slot.
    pub a1: u32,
    /// Third argument slot.
    pub a2: u32,
    /// Fourth argument slot.
    pub a3: u32,
    /// Fifth argument slot.
    pub a4: u32,
}

/// The register image after the trap returns: the call-number slot reread as
/// a status code, and the first argument slot reread as the success value.
#[derive(Clone, Copy, Debug, PartialEq, Eq, Structural)]
pub struct RawResult {
    /// Zero on success; any other value is a firmware-defined error code.
    pub status: u32,
    /// The success payload; meaningless when `status` is non-zero.
    pub value: u32,
}

/// The one way out of this library: whoever implements this performs the
/// trap with the given register image and reports the registers on return.
///
/// No contract is stated here, so every caller in this crate is verified
/// against arbitrary replies.  On the real target the implementation issues
/// the trap instruction; a test implementation may script its replies.
pub trait Firmware {
    /// Transfer control to the firmware with `frame` in the registers and
    /// return the post-trap register state.  Blocks until the firmware
    /// responds; side effects depend entirely on the call number.
    fn trap(&mut self, frame: CallFrame) -> RawResult;
}

/// The one-argument call shape: only the first argument slot is used.
pub fn frame1(num: u32, a0: u32) -> (f: CallFrame)
    ensures
        f == (CallFrame { num, a0, a1: 0, a2: 0, a3: 0, a4: 0 }),
{
    CallFrame { num, a0, a1: 0, a2: 0, a3: 0, a4: 0 }
}

/// The two-argument call shape.
pub fn frame2(num: u32, a0: u32, a1: u32) -> (f: CallFrame)
    ensures
        f == (CallFrame { num, a0, a1, a2: 0, a3: 0, a4: 0 }),
{
    CallFrame { num, a0, a1, a2: 0, a3: 0, a4: 0 }
}

/// The three-argument call shape.
pub fn frame3(num: u32, a0: u32, a1: u32, a2: u32) -> (f: CallFrame)
    ensures
        f == (CallFrame { num, a0, a1, a2, a3: 0, a4: 0 }),
{
    CallFrame { num, a0, a1, a2, a3: 0, a4: 0 }
}

/// The five-argument call shape: every slot is used.
pub fn frame5(num: u32, a0: u32, a1: u32, a2: u32, a3: u32, a4: u32) -> (f: CallFrame)
    ensures
        f == (CallFrame { num, a0, a1, a2, a3, a4 }),
{
    CallFrame { num, a0, a1, a2, a3, a4 }
}

/// How a raw reply is read: status zero means success with the reply's value
/// as payload, any non-zero status is surfaced unchanged as the error code.
pub open spec fn classify_spec(raw: RawResult) -> Result<u32, u32> {
    if raw.status == 0 {
        Ok(raw.value)
    } else {
        Err(raw.status)
    }
}

/// The error-mapping layer: classify a raw reply as success or failure.
pub fn classify(raw: RawResult) -> (r: Result<u32, u32>)
    ensures
        r == classify_spec(raw),
{
    if raw.status == 0 {
        Ok(raw.value)
    } else {
        Err(raw.status)
    }
}

/// Uniform error mapping: whatever call shape produced the frame, a reply
/// with status zero classifies as success carrying the reply's value, and a
/// reply with any non-zero status classifies as that status as an error.
pub proof fn lemma_reply_classification(status: u32, value: u32)
    ensures
        status == 0 ==> classify_spec(RawResult { status, value }) == Ok::<u32, u32>(value),
        status != 0 ==> classify_spec(RawResult { status, value }) == Err::<u32, u32>(status),
{
}

/// Issue a one-argument call and classify the reply.
///
/// Nothing is assumed about the firmware, so nothing pins which outcome
/// comes back; classification still guarantees that an error is never zero.
pub fn ecall<F: Firmware>(fw: &mut F, syscall_num: u32, a0: u32) -> (r: Result<u32, u32>)
    ensures
        r matches Err(e) ==> e != 0,
{
    let f = frame1(syscall_num, a0);
    classify(fw.trap(f))
}

/// Issue a two-argument call and classify the reply.
pub fn ecall2<F: Firmware>(fw: &mut F, syscall_num: u32, a0: u32, a1: u32) -> (r: Result<
    u32,
    u32,
>)
    ensures
        r matches Err(e) ==> e != 0,
{
    let f = frame2(syscall_num, a0, a1);
    classify(fw.trap(f))
}

/// Issue a three-argument call and classify the reply.
pub fn ecall3<F: Firmware>(fw: &mut F, syscall_num: u32, a0: u32, a1: u32, a2: u32) -> (r: Result<
    u32,
    u32,
>)
    ensures
        r matches Err(e) ==> e != 0,
{
    let f = frame3(syscall_num, a0, a1, a2);
    classify(fw.trap(f))
}

/// Issue a five-argument call and classify the reply.
pub fn ecall5<F: Firmware>(
    fw: &mut F,
    syscall_num: u32,
    a0: u32,
    a1: u32,
    a2: u32,
    a3: u32,
    a4: u32,
) -> (r: Result<u32, u32>)
    ensures
        r matches Err(e) ==> e != 0,
{
    let f = frame5(syscall_num, a0, a1, a2, a3, a4);
    classify(fw.trap(f))
}

/// Turn a classified reply into a flag: a non-zero success payload means
/// `true`, zero means `false`, and a failure keeps its code.
pub fn flag_of(r: Result<u32, u32>) -> (b: Result<bool, u32>)
    ensures
        r matches Ok(v) ==> b == Ok::<bool, u32>(v != 0),
        r matches Err(e) ==> b == Err::<bool, u32>(e),
{
    match r {
        Ok(v) => Ok(v != 0),
        Err(e) => Err(e),
    }
}

/// Print a byte buffer to the serial port.  Fire-and-forget: a failure
/// status has no reporting channel here, so it is discarded by design.
pub fn print<F: Firmware>(fw: &mut F, text: Buf) {
    let _ = ecall2(fw, CALL_PRINT, text.addr, text.len);
}

/// The length over which [`strcmp`] asks the firmware to compare: the
/// shorter of the two buffers.
pub open spec fn compare_len_spec(a: Buf, b: Buf) -> u32 {
    if a.len <= b.len {
        a.len
    } else {
        b.len
    }
}

/// The frame [`strcmp`] hands to the firmware: both start addresses and the
/// shorter length.
pub fn strcmp_frame(a: Buf, b: Buf) -> (f: CallFrame)
    ensures
        f == (CallFrame {
            num: CALL_STRCMP,
            a0: a.addr,
            a1: b.addr,
            a2: compare_len_spec(a, b),
            a3: 0,
            a4: 0,
        }),
{
    let n: u32 = if a.len <= b.len {
        a.len
    } else {
        b.len
    };
    frame3(CALL_STRCMP, a.addr, b.addr, n)
}

/// How a classified compare reply is surfaced: a success payload is the
/// firmware's comparison result, reinterpreted as a signed 32-bit integer
/// and otherwise unchanged; a failure keeps its code.
pub fn cmp_of(r: Result<u32, u32>) -> (out: Result<i32, u32>)
    ensures
        r matches Ok(v) ==> out == Ok::<i32, u32>(v as i32),
        r matches Err(e) ==> out == Err::<i32, u32>(e),
{
    match r {
        Ok(v) => Ok(v as i32),
        Err(e) => Err(e),
    }
}

/// Ask the firmware to compare two byte buffers and surface its signed
/// comparison result unchanged, per [`cmp_of`].
///
/// Only the first `compare_len_spec(a, b)` bytes are compared — the shorter
/// buffer's length.  A caller that needs full ordering of unequal-length
/// strings must combine this with its own length comparison; that limitation
/// is part of the firmware interface, not something this layer papers over.
/// A firmware-reported failure is surfaced as its raw status code.
pub fn strcmp<F: Firmware>(fw: &mut F, a: Buf, b: Buf) -> (r: Result<i32, u32>)
    ensures
        r matches Err(e) ==> e != 0,
{
    let f = strcmp_frame(a, b);
    cmp_of(classify(fw.trap(f)))
}

/// Block for the given number of milliseconds.  Fire-and-forget.
pub fn delay<F: Firmware>(fw: &mut F, ms: u32) {
    let _ = ecall(fw, CALL_DELAY, ms);
}

/// Ask the firmware to terminate execution with the given code.
///
/// In practice control never comes back, but the trap primitive cannot
/// express non-return, so this is written as an ordinary returning function;
/// the status of the call is discarded like every other fire-and-forget one.
pub fn exit<F: Firmware>(fw: &mut F, code: u32) {
    let _ = ecall(fw, CALL_EXIT, code);
}

/// The single "write these bytes" hook a formatted-output layer needs: it
/// hands each formatted fragment here, one [`Printer::write_str`] call per
/// fragment.
pub struct Printer;

impl Printer {
    /// Print one fragment.  Never reports failure: the underlying print
    /// call is fire-and-forget.
    pub fn write_str<F: Firmware>(&mut self, fw: &mut F, s: Buf) -> (r: Result<(), ()>)
        ensures
            r == Ok::<(), ()>(()),
    {
        print(fw, s);
        Ok(())
    }
}

} // verus!
