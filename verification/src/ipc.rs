//! The messages the command-line tool and the daemon exchange, and how they
//! are framed on the socket.
//!
//! A frame is the length of its body as a 4-byte big-endian number, then the
//! body: a JSON document of at most [`MAX_MESSAGE_LEN`] bytes.

use vstd::prelude::*;

use crate::config::prefixed;
use crate::text::{decimal, decimal_string};

verus! {

/// The largest body a frame may carry, in bytes.
pub const MAX_MESSAGE_LEN: usize = 65536;

/// What the command-line tool asks of the daemon.
#[derive(Debug, Clone, Copy, PartialEq, Eq, Structural)]
pub enum Request {
    /// Report the battery and the settings.
    GetStatus,
    /// Hold the battery at this percentage.
    SetChargeLimit(u32),
    /// Start (`true`) or cancel (`false`) a boost to a full charge.
    SetBoost(bool),
    /// Turn the periodic full charge on or off.
    SetPeriodicFullCharge(bool),
    /// Days between periodic full charges.
    SetFullChargePeriod(u32),
    /// Whether to switch Wi-Fi power saving off while on AC.
    SetWifiPowerSave(bool),
    /// Read the configuration file again.
    ReloadConfig,
}

/// What the daemon reports of the battery and its settings.
#[derive(Debug, Clone, PartialEq, Eq)]
pub struct ServiceStatus {
    /// The configured charge limit, in percent.
    pub charge_limit: u32,
    /// Whether the periodic full charge is on.
    pub enable_periodic_full_charge: bool,
    /// Days between periodic full charges.
    pub full_charge_period: u32,
    /// Full energy against design energy, in percent, when it could be read.
    pub battery_health: Option<u32>,
    /// The charge, in percent, when it could be read.
    pub battery_charge: Option<u32>,
    /// The end threshold in force, when it could be read.
    pub applied_threshold: Option<u32>,
    /// When an active boost ends, in seconds since the epoch.
    pub boost_until: Option<i64>,
    /// When the battery was last full, in seconds since the epoch.
    pub last_full_charge: Option<i64>,
    /// Whether a periodic full charge is under way.
    pub calibration_active: bool,
    /// Why the threshold could not be read or set, if it could not.
    pub threshold_error: Option<String>,
    /// Why the configuration file could not be read, if it could not.
    pub config_error: Option<String>,
}

/// What the daemon answers.
#[derive(Debug, Clone, PartialEq, Eq)]
pub enum Response {
    /// The status asked for.
    Status(ServiceStatus),
    /// The request was carried out.
    Done,
    /// The request was refused or failed; why.
    Error(String),
}

/// Why a message could not be sent or received.
#[derive(Debug, Clone, PartialEq, Eq)]
pub enum IpcError {
    /// Reading or writing failed; the system's explanation.
    Io(String),
    /// The body is not a valid message; the decoder's explanation.
    Json(String),
    /// A body of this many bytes is larger than [`MAX_MESSAGE_LEN`].
    MessageTooLarge(usize),
}

impl IpcError {
    /// The text this error is reported with.
    pub fn message(&self) -> (m: String)
        ensures
            m@ == match *self {
                IpcError::Io(cause) => "IO error: "@ + cause@,
                IpcError::Json(cause) => "JSON error: "@ + cause@,
                IpcError::MessageTooLarge(n) => "Message too large: "@ + decimal(n as nat) + " bytes (maximum 65536)"@,
            },
    {
        match self {
            IpcError::Io(cause) => prefixed("IO error: ", cause.as_str()),
            IpcError::Json(cause) => prefixed("JSON error: ", cause.as_str()),
            IpcError::MessageTooLarge(n) => {
                let mut m = String::from_str("Message too large: ");
                let digits = decimal_string(*n as u64);
                m.append(digits.as_str());
                m.append(" bytes (maximum 65536)");
                m
            },
        }
    }
}

/// The four big-endian bytes of `n`, which is below 2^32.
pub open spec fn be_bytes(n: nat) -> Seq<u8> {
    seq![
        ((n / 0x100_0000) % 0x100) as u8,
        ((n / 0x1_0000) % 0x100) as u8,
        ((n / 0x100) % 0x100) as u8,
        (n % 0x100) as u8,
    ]
}

/// The number four big-endian bytes stand for.
pub open spec fn be_value(b: Seq<u8>) -> nat {
    (b[0] as nat) * 0x100_0000 + (b[1] as nat) * 0x1_0000 + (b[2] as nat) * 0x100 + (b[3] as nat)
}

/// The frame that carries `body`.
pub open spec fn frame(body: Seq<u8>) -> Seq<u8> {
    be_bytes(body.len()) + body
}

/// What the system says when a read runs out of input.
pub open spec fn truncated_message() -> Seq<char> {
    "failed to fill whole buffer"@
}

/// What reading one frame from the start of an input can find.
pub enum FrameRead {
    /// A whole frame, with this body.
    Body(Seq<u8>),
    /// The input ends inside the length prefix or the body.
    Truncated,
    /// The length prefix announces a body of this many bytes, above the limit.
    TooLarge(nat),
}

/// What reading one frame from the start of `input` finds. The length is
/// checked against the limit before the body is read.
pub open spec fn read_frame(input: Seq<u8>) -> FrameRead {
    if input.len() < 4 {
        FrameRead::Truncated
    } else if be_value(input.subrange(0, 4)) > MAX_MESSAGE_LEN {
        FrameRead::TooLarge(be_value(input.subrange(0, 4)))
    } else if input.len() - 4 < be_value(input.subrange(0, 4)) {
        FrameRead::Truncated
    } else {
        FrameRead::Body(input.subrange(4, 4 + be_value(input.subrange(0, 4)) as int))
    }
}

/// Whether `r` is what receiving a message reports for `found`.
pub open spec fn received_as(r: Result<Vec<u8>, IpcError>, found: FrameRead) -> bool {
    match found {
        FrameRead::Body(body) => r matches Ok(v) && v@ == body,
        FrameRead::Truncated => r matches Err(IpcError::Io(m)) && m@ == truncated_message(),
        FrameRead::TooLarge(n) => r == Err::<Vec<u8>, IpcError>(IpcError::MessageTooLarge(n as usize)),
    }
}

/// The body length that a 4-byte big-endian prefix announces, or the refusal
/// of a length above [`MAX_MESSAGE_LEN`].
pub fn frame_length(header: [u8; 4]) -> (r: Result<usize, IpcError>)
    ensures
        be_value(header@) <= MAX_MESSAGE_LEN ==> r == Ok::<usize, IpcError>(be_value(header@) as usize),
        be_value(header@) > MAX_MESSAGE_LEN ==> r == Err::<usize, IpcError>(
            IpcError::MessageTooLarge(be_value(header@) as usize),
        ),
{
    let len: u32 = (header[0] as u32) * 0x100_0000 + (header[1] as u32) * 0x1_0000 + (header[2] as u32) * 0x100
        + (header[3] as u32);
    let len = len as usize;
    if len > MAX_MESSAGE_LEN {
        return Err(IpcError::MessageTooLarge(len));
    }
    Ok(len)
}

/// Appends the frame that carries `payload` to `out`, or refuses a payload
/// above [`MAX_MESSAGE_LEN`] without writing anything.
pub fn send_message(out: &mut Vec<u8>, payload: &[u8]) -> (r: Result<(), IpcError>)
    ensures
        payload@.len() <= MAX_MESSAGE_LEN ==> r is Ok && final(out)@ == old(out)@ + frame(payload@),
        payload@.len() > MAX_MESSAGE_LEN ==> r == Err::<(), IpcError>(IpcError::MessageTooLarge(payload@.len() as usize))
            && final(out)@ == old(out)@,
{
    let n = payload.len();
    if n > MAX_MESSAGE_LEN {
        return Err(IpcError::MessageTooLarge(n));
    }
    let len = n as u32;
    let ghost before = out@;
    out.push(((len / 0x100_0000) % 0x100) as u8);
    out.push(((len / 0x1_0000) % 0x100) as u8);
    out.push(((len / 0x100) % 0x100) as u8);
    out.push((len % 0x100) as u8);
    assert(out@ == before + be_bytes(n as nat));
    let mut i: usize = 0;
    while i < n
        invariant
            i <= n == payload@.len(),
            out@ == before + be_bytes(n as nat) + payload@.take(i as int),
        decreases n - i,
    {
        out.push(payload[i]);
        i = i + 1;
        assert(payload@.take(i as int) == payload@.take(i - 1 as int).push(payload@[i - 1]));
    }
    assert(payload@.take(n as int) == payload@);
    Ok(())
}

/// Reads the body of the frame at the start of `input`.
pub fn receive_message(input: &[u8]) -> (r: Result<Vec<u8>, IpcError>)
    ensures
        received_as(r, read_frame(input@)),
{
    if input.len() < 4 {
        return Err(IpcError::Io(String::from_str("failed to fill whole buffer")));
    }
    let header: [u8; 4] = [input[0], input[1], input[2], input[3]];
    assert(header@ == input@.subrange(0, 4));
    let len = match frame_length(header) {
        Ok(len) => len,
        Err(e) => return Err(e),
    };
    if input.len() - 4 < len {
        return Err(IpcError::Io(String::from_str("failed to fill whole buffer")));
    }
    let mut body: Vec<u8> = Vec::new();
    let mut i: usize = 0;
    while i < len
        invariant
            i <= len,
            4 + len <= input.len(),
            body@ == input@.subrange(4, 4 + i),
        decreases len - i,
    {
        body.push(input[4 + i]);
        i = i + 1;
    }
    Ok(body)
}

/// A frame read back gives the body it was sent with, whatever follows it in
/// the stream; and its length prefix is the length of the body.
pub proof fn frame_roundtrip(body: Seq<u8>, rest: Seq<u8>)
    requires
        body.len() <= MAX_MESSAGE_LEN,
    ensures
        read_frame(frame(body) + rest) == FrameRead::Body(body),
        be_value(frame(body).subrange(0, 4)) == body.len(),
        frame(body).len() == body.len() + 4,
{
    let n = body.len();
    let input = frame(body) + rest;
    assert(input.subrange(0, 4) == be_bytes(n));
    assert(be_value(be_bytes(n)) == n) by (nonlinear_arith)
        requires
            n <= 65536,
    {
        assert(n / 0x100_0000 == 0);
    }
    assert(input.subrange(4, 4 + n as int) == body);
    assert(frame(body).subrange(0, 4) == be_bytes(n));
}

/// A frame cut short anywhere reads as truncated.
pub proof fn cut_frame_is_truncated(body: Seq<u8>, keep: int)
    requires
        body.len() <= MAX_MESSAGE_LEN,
        0 <= keep < frame(body).len(),
    ensures
        read_frame(frame(body).take(keep)) == FrameRead::Truncated,
{
    frame_roundtrip(body, Seq::empty());
    let input = frame(body).take(keep);
    if keep >= 4 {
        assert(input.subrange(0, 4) == frame(body).subrange(0, 4));
        assert(frame(body) + Seq::<u8>::empty() == frame(body));
    }
}

} // verus!
