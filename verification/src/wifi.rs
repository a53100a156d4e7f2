//! Wireless control wrappers.
//!
//! Stateless query and command calls for the wireless interface: mode,
//! channel, connection state, station join, and the assigned IPv4 address.
//! The library caches nothing — every function asks the firmware afresh, and
//! no freshness is promised between calls.
//!
//! Joining a network is fire-and-forget on the firmware side: a successful
//! [`connect_as_station`] only means the join was accepted, not that the
//! network is up.  Callers poll [`is_connected`] until it reports true.

use vstd::prelude::*;

use crate::Buf;
use crate::CallFrame;
use crate::Firmware;
use crate::ecall;
use crate::flag_of;

verus! {

/// Call number of the query for the current wireless mode.
pub const CALL_WIFI_GET_MODE: u32 = 0x100;
/// Call number of the command setting the wireless mode.
pub const CALL_WIFI_SET_MODE: u32 = 0x101;
/// Call number of the query for the current channel.
pub const CALL_WIFI_GET_CHANNEL: u32 = 0x102;
/// Call number of the query for the connection state.
pub const CALL_WIFI_IS_CONNECTED: u32 = 0x103;
/// Call number of the station-join command.
pub const CALL_WIFI_CONNECT_STATION: u32 = 0x104;
/// Call number of the query for the assigned IPv4 address.
pub const CALL_WIFI_GET_IPV4: u32 = 0x105;

/// Query the current wireless mode as a raw firmware-defined value.
///
/// A firmware-reported failure is surfaced as its raw status code rather
/// than trusted away.
pub fn get_mode<F: Firmware>(fw: &mut F) -> (r: Result<u32, u32>)
    ensures
        r matches Err(e) ==> e != 0,
{
    ecall(fw, CALL_WIFI_GET_MODE, 0)
}

/// Set the wireless mode; the firmware answers with a flag (non-zero means
/// the mode was taken).
pub fn set_mode<F: Firmware>(fw: &mut F, mode: u32) -> (r: Result<bool, u32>)
    ensures
        r matches Err(e) ==> e != 0,
{
    flag_of(ecall(fw, CALL_WIFI_SET_MODE, mode))
}

/// Query the current wireless channel.
pub fn get_channel<F: Firmware>(fw: &mut F) -> (r: Result<u32, u32>)
    ensures
        r matches Err(e) ==> e != 0,
{
    ecall(fw, CALL_WIFI_GET_CHANNEL, 0)
}

/// Query whether the interface is associated with a network: the firmware
/// answers with a flag, non-zero meaning connected.
pub fn is_connected<F: Firmware>(fw: &mut F) -> (r: Result<bool, u32>)
    ensures
        r matches Err(e) ==> e != 0,
{
    flag_of(ecall(fw, CALL_WIFI_IS_CONNECTED, 0))
}

/// The frame [`connect_as_station`] hands to the firmware, the one call that
/// needs all five argument slots: ssid address, ssid length, password
/// address, password length, channel — in that order.
pub fn connect_station_frame(ssid: Buf, pwd: Buf, channel: u32) -> (f: CallFrame)
    ensures
        f == (CallFrame {
            num: CALL_WIFI_CONNECT_STATION,
            a0: ssid.addr,
            a1: ssid.len,
            a2: pwd.addr,
            a3: pwd.len,
            a4: channel,
        }),
{
    crate::frame5(CALL_WIFI_CONNECT_STATION, ssid.addr, ssid.len, pwd.addr, pwd.len, channel)
}

/// Ask the firmware to join the named network as a station.
///
/// Fire-and-forget on the network side: a `true` flag only acknowledges the
/// request.  Poll [`is_connected`] to learn when association completes.
pub fn connect_as_station<F: Firmware>(fw: &mut F, ssid: Buf, pwd: Buf, channel: u32) -> (r: Result<
    bool,
    u32,
>)
    ensures
        r matches Err(e) ==> e != 0,
{
    let f = connect_station_frame(ssid, pwd, channel);
    flag_of(crate::classify(fw.trap(f)))
}

/// Query the assigned IPv4 address as the firmware's packed 32-bit value;
/// [`octets`] unpacks it.
pub fn ipv4<F: Firmware>(fw: &mut F) -> (r: Result<u32, u32>)
    ensures
        r matches Err(e) ==> e != 0,
{
    ecall(fw, CALL_WIFI_GET_IPV4, 0)
}

/// Unpack a firmware IPv4 value into dotted-decimal octets, first octet
/// first.  The first octet is the low byte: the packing is little-endian.
pub fn octets(addr: u32) -> (r: (u8, u8, u8, u8))
    ensures
        r.0 == addr & 0xff,
        r.1 == (addr >> 8) & 0xff,
        r.2 == (addr >> 16) & 0xff,
        r.3 == (addr >> 24) & 0xff,
{
    proof {
        assert(addr & 0xff < 256 && (addr >> 8) & 0xff < 256 && (addr >> 16) & 0xff < 256 && (addr
            >> 24) & 0xff < 256) by (bit_vector);
    }
    ((addr & 0xff) as u8, ((addr >> 8) & 0xff) as u8, ((addr >> 16) & 0xff) as u8, ((addr >> 24)
        & 0xff) as u8)
}

} // verus!
