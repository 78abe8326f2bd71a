//! The session layer: a connection that owns a transport, serializes
//! commands, and reads replies out of an echoing, noisy byte stream.
//!
//! The transport echoes every transmitted frame back before the real reply,
//! and the device may emit unsolicited notification frames at any time, so
//! the reader classifies each decoded frame — echo, unsolicited, or reply —
//! and hands back only the reply. Malformed spans are dropped and the wait
//! goes on; only the deadline ends it.

use vstd::prelude::*;

use crate::command::{command_byte_of, command_frame, command_wf, Command};
use crate::control::VfoState;
use crate::command::{
    LEVEL_AF, LEVEL_RF_POWER, LEVEL_SQUELCH, METER_S, TONE_SUB_DTCS, TONE_SUB_REPEATER,
    TONE_SUB_TSQL, VARIOUS_TONE_SQUELCH_FUNC, VFO_SUB_A, VFO_SUB_B,
};
use crate::error::CivError;
use crate::frequency::Frequency;
use crate::mode::OperatingMode;
use crate::protocol::{
    copy_range, find_byte_from, find_preamble, find_preamble_at, frame_wire_wf,
    lemma_find_byte_props, lemma_find_preamble_props, lemma_parse_skips_garbage, parse_spec,
    wire_bytes, Frame, FrameView, ParseOutcome, ADDR_CONTROLLER, ADDR_ID52, EOM, NG, OK,
};
use crate::response::{parse_response, parse_response_spec, Response};
use crate::transport::Transport;

verus! {

/// Cap on each single read's timeout, so the deadline is checked often.
pub const READ_SLICE_MS: u64 = 100;

/// Configuration for the radio connection.
#[derive(Debug, Clone, Copy, PartialEq, Eq, Structural)]
pub struct RadioConfig {
    /// Link address of the radio.
    pub radio_addr: u8,
    /// Link address of the controller (this side).
    pub controller_addr: u8,
    /// Serial baud rate.
    pub baud_rate: u32,
    /// Deadline for one reply, in milliseconds.
    pub timeout_ms: u64,
    /// Whether the transport echoes every transmitted frame back before
    /// the reply. When false, the reader skips the echo-classification
    /// step entirely and accepts a qualifying frame whatever its
    /// destination address.
    pub echo_back: bool,
    /// Sub-command byte that selects VFO/band A. The values are
    /// device-family-specific (this family uses 0xD0/0xD1 where others use
    /// 0x00/0x01), so they are configuration, not constants.
    pub vfo_a_sub: u8,
    /// Sub-command byte that selects VFO/band B.
    pub vfo_b_sub: u8,
}

impl Default for RadioConfig {
    /// The conventions of this device family: its addresses, 19200 baud, a
    /// one-second reply deadline, echo back on, and its VFO sub-command
    /// values.
    fn default() -> (r: Self)
        ensures
            r.radio_addr == ADDR_ID52,
            r.controller_addr == ADDR_CONTROLLER,
            r.baud_rate == 19200u32,
            r.timeout_ms == 1000u64,
            r.echo_back == true,
            r.vfo_a_sub == VFO_SUB_A,
            r.vfo_b_sub == VFO_SUB_B,
    {
        RadioConfig {
            radio_addr: ADDR_ID52,
            controller_addr: ADDR_CONTROLLER,
            baud_rate: 19200,
            timeout_ms: 1000,
            echo_back: true,
            vfo_a_sub: VFO_SUB_A,
            vfo_b_sub: VFO_SUB_B,
        }
    }
}

/// True when a decoded frame is the reply the reader waits for: addressed
/// to the controller (unless the destination filter is off because the
/// transport does not echo) and, when a command byte is expected, carrying
/// either that byte or one of the two universal replies. With no expected
/// byte, any frame through the filter qualifies (bit-rate discovery).
pub open spec fn reply_matches(f: FrameView, dst_filter: Option<u8>, expected_cmd: Option<u8>) -> bool {
    (match dst_filter {
        Option::None => true,
        Option::Some(a) => f.dst == a,
    }) && (match expected_cmd {
        Option::None => true,
        Option::Some(c) => f.command == OK || f.command == NG || f.command == c,
    })
}

/// The destination filter a configuration induces: the controller address
/// when the transport echoes, none when it does not.
pub open spec fn config_dst_filter(c: RadioConfig) -> Option<u8> {
    if c.echo_back {
        Option::Some(c.controller_addr)
    } else {
        Option::None
    }
}

/// Shift the consumed-byte count of a scan result.
pub open spec fn shift_scan(o: Option<(FrameView, int)>, d: int) -> Option<(FrameView, int)> {
    match o {
        Option::None => Option::None,
        Option::Some((f, c)) => Option::Some((f, c + d)),
    }
}

/// The reader's walk over a buffer: decode a frame; drop it when it is an
/// echo (wrong destination) or an unsolicited notification (unexpected
/// command byte); drop malformed spans through their terminator; stop at
/// the first qualifying reply. The count is of all bytes consumed from the
/// start of the buffer through the reply's terminator.
pub open spec fn scan_reply(s: Seq<u8>, dst_filter: Option<u8>, expected_cmd: Option<u8>) -> Option<
    (FrameView, int),
>
    decreases s.len(),
{
    match parse_spec(s) {
        ParseOutcome::Incomplete => Option::None,
        ParseOutcome::Short { start, end } => if 0 <= end && end < s.len() {
            shift_scan(scan_reply(s.skip(end + 1), dst_filter, expected_cmd), end + 1)
        } else {
            Option::None
        },
        ParseOutcome::Complete { frame, start, end } => if 0 <= end && end < s.len() {
            if reply_matches(frame, dst_filter, expected_cmd) {
                Option::Some((frame, end + 1))
            } else {
                shift_scan(scan_reply(s.skip(end + 1), dst_filter, expected_cmd), end + 1)
            }
        } else {
            Option::None
        },
    }
}

/// The positions a decode reports always lie inside the buffer, with the
/// preamble strictly before the terminator.
pub proof fn lemma_parse_spec_positions(s: Seq<u8>)
    ensures
        parse_spec(s) matches ParseOutcome::Short { start, end } ==> 0 <= start && start < end
            && end < s.len(),
        parse_spec(s) matches ParseOutcome::Complete { start, end, .. } ==> 0 <= start && start
            + 5 <= end && end < s.len(),
{
    lemma_find_preamble_props(s, 0);
    match find_preamble_at(s, 0) {
        Option::Some(st) => {
            lemma_find_byte_props(s, EOM, st);
        },
        Option::None => {},
    }
}

/// A frame the scan returns always qualifies, and its count of consumed
/// bytes is positive and within the buffer.
pub proof fn lemma_scan_reply_matches(s: Seq<u8>, dst_filter: Option<u8>, expected_cmd: Option<u8>)
    ensures
        scan_reply(s, dst_filter, expected_cmd) matches Some((f, c)) ==> reply_matches(
            f,
            dst_filter,
            expected_cmd,
        ) && 0 < c <= s.len(),
    decreases s.len(),
{
    lemma_parse_spec_positions(s);
    match parse_spec(s) {
        ParseOutcome::Incomplete => {},
        ParseOutcome::Short { start, end } => {
            lemma_scan_reply_matches(s.skip(end + 1), dst_filter, expected_cmd);
        },
        ParseOutcome::Complete { frame, start, end } => {
            lemma_scan_reply_matches(s.skip(end + 1), dst_filter, expected_cmd);
        },
    }
}

/// Replace `v` by its contents from position `n` on.
fn drop_prefix(v: &mut Vec<u8>, n: usize)
    requires
        n <= old(v)@.len(),
    ensures
        final(v)@ == old(v)@.skip(n as int),
{
    let len = v.len();
    let tail = copy_range(v.as_slice(), n, len);
    proof {
        assert(old(v)@.subrange(n as int, len as int) =~= old(v)@.skip(n as int));
    }
    *v = tail;
}

/// Extract the awaited reply from a receive buffer: decode frames one by
/// one, drop echoes, unsolicited notifications, and malformed spans, and
/// stop at the first qualifying reply or when no complete frame is left.
#[verifier::loop_isolation(false)]
fn extract_reply_from(buf: &mut Vec<u8>, dst_filter: Option<u8>, expected_cmd: Option<u8>) -> (r:
    Option<Frame>)
    ensures
        match r {
            Some(f) => exists|c: int|
                scan_reply(old(buf)@, dst_filter, expected_cmd) == Option::Some((f@, c)) && 0
                    < c <= old(buf)@.len() && final(buf)@ == old(buf)@.skip(c),
            None => scan_reply(old(buf)@, dst_filter, expected_cmd) is None && (exists|k: int|
                0 <= k <= old(buf)@.len() && final(buf)@ == old(buf)@.skip(k)) && parse_spec(
                final(buf)@,
            ) is Incomplete,
        },
{
    let ghost orig = buf@;
    let ghost mut k: int = 0;
    loop
        invariant
            0 <= k <= orig.len(),
            buf@ == orig.skip(k),
            scan_reply(orig, dst_filter, expected_cmd) == shift_scan(
                scan_reply(buf@, dst_filter, expected_cmd),
                k,
            ),
        decreases buf@.len(),
    {
        // Bind the length so its usize bound is in scope for the
        // position arithmetic below.
        let _buf_len = buf.len();
        proof {
            lemma_parse_spec_positions(buf@);
        }
        match Frame::parse(buf.as_slice()) {
            Ok(None) => {
                proof {
                    assert(parse_spec(buf@) is Incomplete);
                    assert(scan_reply(buf@, dst_filter, expected_cmd) is None);
                    assert(0 <= k <= orig.len() && buf@ == orig.skip(k));
                }
                return None;
            },
            Err(_) => {
                // A span too short to be a frame: drop it through its
                // terminator and keep scanning.
                let start = match find_preamble(buf.as_slice()) {
                    Some(s) => s,
                    None => {
                        proof {
                            assert(false);
                        }
                        return None;
                    },
                };
                proof {
                    lemma_find_preamble_props(buf@, 0);
                }
                let end = match find_byte_from(buf.as_slice(), EOM, start) {
                    Some(e) => e,
                    None => {
                        proof {
                            assert(false);
                        }
                        return None;
                    },
                };
                proof {
                    lemma_find_byte_props(buf@, EOM, start as int);
                    assert(parse_spec(buf@) matches ParseOutcome::Short { start: st_g, end: e_g }
                        && st_g == start as int && e_g == end as int);
                }
                let ghost pre = buf@;
                drop_prefix(buf, end + 1);
                proof {
                    assert(scan_reply(pre, dst_filter, expected_cmd) == shift_scan(
                        scan_reply(pre.skip(end + 1), dst_filter, expected_cmd),
                        end + 1,
                    ));
                    assert(pre.skip(end + 1) =~= orig.skip(k + end + 1));
                    k = k + end + 1;
                }
            },
            Ok(Some((f, consumed))) => {
                let start = match find_preamble(buf.as_slice()) {
                    Some(s) => s,
                    None => {
                        proof {
                            assert(false);
                        }
                        return None;
                    },
                };
                let ghost pre = buf@;
                let ghost e = (parse_spec(buf@)->Complete_end);
                proof {
                    lemma_parse_spec_positions(buf@);
                    assert(parse_spec(buf@) is Complete);
                    assert(parse_spec(buf@)->Complete_start == start as int);
                    assert(consumed as int == e + 1 - start);
                    assert(start + consumed == e + 1);
                }
                let total = start + consumed;
                let dst_passes = match dst_filter {
                    Some(a) => f.dst == a,
                    None => true,
                };
                let qualifies = dst_passes && (match expected_cmd {
                    Some(c) => f.is_ok() || f.is_ng() || f.command == c,
                    None => true,
                });
                drop_prefix(buf, total);
                proof {
                    assert(f@ == parse_spec(pre)->Complete_frame);
                    assert(qualifies == reply_matches(f@, dst_filter, expected_cmd));
                    assert(pre.skip(e + 1) =~= orig.skip(k + e + 1));
                    if qualifies {
                        assert(scan_reply(pre, dst_filter, expected_cmd) == Option::Some(
                            (f@, e + 1),
                        ));
                    } else {
                        assert(scan_reply(pre, dst_filter, expected_cmd) == shift_scan(
                            scan_reply(pre.skip(e + 1), dst_filter, expected_cmd),
                            e + 1,
                        ));
                    }
                    k = k + e + 1;
                }
                if qualifies {
                    proof {
                        assert(scan_reply(orig, dst_filter, expected_cmd) == Option::Some(
                            (f@, k),
                        ));
                    }
                    return Some(f);
                }
                // An echo of this side's own transmission, or an
                // unsolicited notification: drop it and keep scanning.
            },
        }
    }
}

/// Stepping a running modulo-2^64 byte counter by a wrapping addition
/// keeps it equal to the true total modulo 2^64.
proof fn lemma_wrap_step(x: u64, n: u64, base: int, total: int)
    requires
        0 <= base,
        0 <= total,
        x as int == (base + total) % 0x1_0000_0000_0000_0000,
    ensures
        vstd::wrapping::u64_specs::wrapping_add(x, n) as int == (base + total + n)
            % 0x1_0000_0000_0000_0000,
{
    let m: int = 0x1_0000_0000_0000_0000;
    let a: int = base + total;
    let ni: int = n as int;
    let xi: int = x as int;
    vstd::arithmetic::div_mod::lemma_small_mod(n as nat, m as nat);
    vstd::arithmetic::div_mod::lemma_add_mod_noop(a, ni, m);
    assert((a % m + ni % m) % m == (a + ni) % m);
    assert(xi + ni <= u64::MAX ==> (xi + ni) % m == xi + ni) by {
        if xi + ni <= u64::MAX {
            vstd::arithmetic::div_mod::lemma_small_mod((xi + ni) as nat, m as nat);
        }
    }
    assert(xi + ni > u64::MAX ==> (xi + ni) % m == xi + ni - m) by {
        if xi + ni > u64::MAX {
            vstd::arithmetic::div_mod::lemma_mod_multiples_vanish(1, xi + ni - m, m);
            vstd::arithmetic::div_mod::lemma_small_mod((xi + ni - m) as nat, m as nat);
        }
    }
}

/// The modulo form of a counter that has not wrapped: starting from a
/// counter below 2^64 and adding nothing leaves it equal to itself.
proof fn lemma_counter_mod_self(x: u64)
    ensures
        x as int == (x as int + 0) % 0x1_0000_0000_0000_0000,
{
    vstd::arithmetic::div_mod::lemma_small_mod(x as nat, 0x1_0000_0000_0000_0000 as nat);
}

/// A response the session can return for a command: some frame that
/// qualifies as the command's reply parses to it under that command.
pub open spec fn replied(dst_filter: Option<u8>, c: Command, resp: Response) -> bool {
    exists|fv: FrameView|
        reply_matches(fv, dst_filter, Option::Some(command_byte_of(c)))
            && parse_response_spec(fv, c) == Ok::<Response, CivError>(resp)
}

/// An error the session can report for a command because some frame that
/// qualifies as the command's reply parses to it.
pub open spec fn replied_err(dst_filter: Option<u8>, c: Command, e: CivError) -> bool {
    exists|fv: FrameView|
        reply_matches(fv, dst_filter, Option::Some(command_byte_of(c)))
            && parse_response_spec(fv, c) == Err::<Response, CivError>(e)
}

/// A connection to a radio over a transport.
///
/// The session owns the transport and its receive buffer exclusively; one
/// `send_command` call owns the whole exchange, and a timeout aborts only
/// that call, leaving buffer and counters valid for the next one.
pub struct Radio<T> {
    /// The byte transport under the session.
    pub port: T,
    /// Link addresses, baud rate, and reply deadline.
    pub config: RadioConfig,
    /// Bytes read but not yet consumed by the frame decoder.
    pub buf: Vec<u8>,
    /// Cumulative count of bytes written, modulo 2^64.
    pub tx_bytes: u64,
    /// Cumulative count of bytes read, modulo 2^64.
    pub rx_bytes: u64,
}

impl<T: Transport> Radio<T> {
    /// Create a `Radio` from an already-opened transport and a
    /// configuration.
    pub fn new(port: T, config: RadioConfig) -> (r: Self)
        ensures
            r.config == config,
            r.buf@ == Seq::<u8>::empty(),
            r.tx_bytes == 0,
            r.rx_bytes == 0,
    {
        Radio { port, config, buf: Vec::new(), tx_bytes: 0, rx_bytes: 0 }
    }

    /// The baud rate of the current connection.
    pub fn baud_rate(&self) -> (r: u32)
        ensures
            r == self.config.baud_rate,
    {
        self.config.baud_rate
    }

    /// Cumulative bytes transmitted, modulo 2^64.
    pub fn tx_bytes(&self) -> (r: u64)
        ensures
            r == self.tx_bytes,
    {
        self.tx_bytes
    }

    /// Cumulative bytes received, modulo 2^64.
    pub fn rx_bytes(&self) -> (r: u64)
        ensures
            r == self.rx_bytes,
    {
        self.rx_bytes
    }

    /// Read the next qualifying reply frame: fill the receive buffer with
    /// short reads bounded by the configured deadline, decode, and skip
    /// echoes of this side's own transmissions, unsolicited notifications,
    /// and malformed spans. A reply already waiting in the buffer is
    /// returned without touching the transport. Fails with `Timeout` when
    /// the attempt budget derived from the deadline runs out with no
    /// qualifying frame, and with `Io` when the transport itself fails;
    /// either way the buffer keeps its unconsumed tail and stays valid for
    /// the next call, and the receive counter grows by exactly the bytes
    /// read.
    #[verifier::loop_isolation(false)]
    fn read_response(&mut self, expected_cmd: u8) -> (r: Result<Frame, CivError>)
        ensures
            final(self).config == old(self).config,
            final(self).tx_bytes == old(self).tx_bytes,
            scan_reply(
                old(self).buf@,
                config_dst_filter(old(self).config),
                Option::Some(expected_cmd),
            ) matches Some((fv, c)) ==> r matches Ok(f) && f@ == fv,
            r matches Err(e) ==> e == CivError::Timeout || e == CivError::Io,
            exists|appended: Seq<u8>, k: int|
                0 <= k <= old(self).buf@.len() + appended.len() && final(self).buf@ == (old(
                    self,
                ).buf@ + appended).skip(k) && final(self).rx_bytes as int == (old(self).rx_bytes
                    + appended.len()) % 0x1_0000_0000_0000_0000,
            r matches Ok(f) ==> reply_matches(
                f@,
                config_dst_filter(old(self).config),
                Option::Some(expected_cmd),
            ),
            r == Err::<Frame, CivError>(CivError::Timeout) ==> scan_reply(
                final(self).buf@,
                config_dst_filter(old(self).config),
                Option::Some(expected_cmd),
            ) is None,
    {
        let ctrl = if self.config.echo_back {
            Some(self.config.controller_addr)
        } else {
            None
        };
        let _ = self.port.set_read_timeout(READ_SLICE_MS);
        let mut attempts: u64 = self.config.timeout_ms / READ_SLICE_MS + 1;
        let ghost mut appended: Seq<u8> = Seq::empty();
        let ghost mut dropped: int = 0;
        proof {
            lemma_counter_mod_self(self.rx_bytes);
            assert((old(self).buf@ + appended).skip(0) =~= old(self).buf@);
        }
        let ghost pre0 = self.buf@;
        match extract_reply_from(&mut self.buf, ctrl, Some(expected_cmd)) {
            Some(f) => {
                proof {
                    let c = choose|c: int|
                        scan_reply(pre0, ctrl, Some(expected_cmd)) == Option::Some((f@, c)) && 0
                            < c <= pre0.len() && self.buf@ == pre0.skip(c);
                    lemma_scan_reply_matches(pre0, ctrl, Some(expected_cmd));
                    assert((old(self).buf@ + appended).skip(c) =~= pre0.skip(c));
                    assert(0 <= c <= old(self).buf@.len() + appended.len() && self.buf@ == (old(
                        self,
                    ).buf@ + appended).skip(c) && self.rx_bytes as int == (old(self).rx_bytes
                        + appended.len()) % 0x1_0000_0000_0000_0000);
                }
                return Ok(f);
            },
            None => {
                proof {
                    let kk = choose|kk: int|
                        0 <= kk <= pre0.len() && self.buf@ == pre0.skip(kk);
                    assert((old(self).buf@ + appended).skip(kk) =~= pre0.skip(kk));
                    dropped = kk;
                }
            },
        }
        while attempts > 0
            invariant
                self.config == old(self).config,
                self.tx_bytes == old(self).tx_bytes,
                0 <= dropped <= old(self).buf@.len() + appended.len(),
                self.buf@ == (old(self).buf@ + appended).skip(dropped),
                self.rx_bytes as int == (old(self).rx_bytes + appended.len())
                    % 0x1_0000_0000_0000_0000,
                parse_spec(self.buf@) is Incomplete,
            decreases attempts,
        {
            attempts = attempts - 1;
            let chunk = match self.port.read() {
                Ok(c) => c,
                Err(e) => {
                    if matches!(e, CivError::Timeout) {
                        // The read timeout lapsed with nothing to read:
                        // not an error, just no data this slice.
                        Vec::new()
                    } else {
                        // Whatever the implementation reported, to the
                        // session it is a transport failure.
                        return Err(CivError::Io);
                    }
                },
            };
            let n = chunk.len();
            proof {
                lemma_wrap_step(
                    self.rx_bytes,
                    n as u64,
                    old(self).rx_bytes as int,
                    appended.len() as int,
                );
            }
            self.rx_bytes = self.rx_bytes.wrapping_add(n as u64);
            let ghost pre = self.buf@;
            crate::response::push_all(&mut self.buf, &chunk);
            proof {
                let app2 = appended + chunk@;
                assert((old(self).buf@ + app2).skip(dropped) =~= pre + chunk@);
                appended = app2;
            }
            let ghost pre_x = self.buf@;
            match extract_reply_from(&mut self.buf, ctrl, Some(expected_cmd)) {
                Some(f) => {
                    proof {
                        let c = choose|c: int|
                            scan_reply(pre_x, ctrl, Some(expected_cmd)) == Option::Some((f@, c))
                                && 0 < c <= pre_x.len() && self.buf@ == pre_x.skip(c);
                        lemma_scan_reply_matches(pre_x, ctrl, Some(expected_cmd));
                        assert((old(self).buf@ + appended).skip(dropped + c) =~= pre_x.skip(c));
                        assert(0 <= dropped + c <= old(self).buf@.len() + appended.len() && self
                            .buf@ == (old(self).buf@ + appended).skip(dropped + c));
                    }
                    return Ok(f);
                },
                None => {
                    proof {
                        let kk = choose|kk: int|
                            0 <= kk <= pre_x.len() && self.buf@ == pre_x.skip(kk);
                        assert((old(self).buf@ + appended).skip(dropped + kk) =~= pre_x.skip(kk));
                        dropped = dropped + kk;
                    }
                },
            }
        }
        proof {
            assert(scan_reply(self.buf@, ctrl, Option::Some(expected_cmd)) is None);
        }
        Err(CivError::Timeout)
    }

    /// Encode a command, address it from the configuration, write and
    /// flush its wire bytes, then read and parse the matching reply under
    /// the command's context. The transmit counter grows by exactly the
    /// encoded length once the write is out, and never by anything else.
    /// Errors are a transport failure (`Io`), the deadline (`Timeout`), or
    /// what the reply itself parsed to; device rejection is the
    /// `Response::Ng` value, never an error.
    pub fn send_command(&mut self, command: &Command) -> (r: Result<Response, CivError>)
        requires
            command_wf(*command),
        ensures
            final(self).config == old(self).config,
            r matches Ok(resp) ==> replied(config_dst_filter(old(self).config), *command, resp),
            r matches Ok(resp) ==> final(self).tx_bytes as int == (old(self).tx_bytes
                + wire_bytes(command_frame(*command)).len()) % 0x1_0000_0000_0000_0000,
            final(self).tx_bytes == old(self).tx_bytes || final(self).tx_bytes as int == (old(
                self,
            ).tx_bytes + wire_bytes(command_frame(*command)).len()) % 0x1_0000_0000_0000_0000,
            r matches Err(e) ==> e == CivError::Io || e == CivError::Timeout || replied_err(
                config_dst_filter(old(self).config),
                *command,
                e,
            ),
            r matches Err(e) ==> e != CivError::Ng,
    {
        let mut frame = match command.to_frame() {
            Ok(f) => f,
            Err(e) => {
                return Err(e);
            },
        };
        // The wire addresses and the device-family-specific VFO
        // sub-command values are configuration, not constants of the
        // command model.
        frame.dst = self.config.radio_addr;
        frame.src = self.config.controller_addr;
        match command {
            Command::SelectVfoA => {
                frame.sub_command = Some(self.config.vfo_a_sub);
            },
            Command::SelectVfoB => {
                frame.sub_command = Some(self.config.vfo_b_sub);
            },
            _ => (),
        }
        let bytes = frame.to_bytes();
        proof {
            assert(wire_bytes(frame@).len() == wire_bytes(command_frame(*command)).len());
        }
        match self.port.write_all(bytes.as_slice()) {
            Ok(()) => (),
            Err(_) => {
                return Err(CivError::Io);
            },
        }
        match self.port.flush() {
            Ok(()) => (),
            Err(_) => {
                return Err(CivError::Io);
            },
        }
        proof {
            lemma_counter_mod_self(self.tx_bytes);
            lemma_wrap_step(self.tx_bytes, bytes@.len() as u64, old(self).tx_bytes as int, 0);
        }
        self.tx_bytes = self.tx_bytes.wrapping_add(bytes.len() as u64);
        let response_frame = match self.read_response(command.command_byte()) {
            Ok(f) => f,
            Err(e) => {
                return Err(e);
            },
        };
        let r = parse_response(&response_frame, command);
        proof {
            crate::response::lemma_parse_response_err_kinds(response_frame@, *command);
        }
        r
    }

    /// Read the current operating frequency.
    pub fn read_frequency(&mut self) -> (r: Result<Frequency, CivError>)
        ensures
            final(self).config == old(self).config,
            r matches Ok(freq) ==> freq.wf() && replied(
                config_dst_filter(old(self).config),
                Command::ReadFrequency,
                Response::Frequency(freq),
            ),
            r == Err::<Frequency, CivError>(CivError::Ng) ==> replied(
                config_dst_filter(old(self).config),
                Command::ReadFrequency,
                Response::Ng,
            ),
            r == Err::<Frequency, CivError>(CivError::InvalidFrame) ==> replied_err(
                config_dst_filter(old(self).config),
                Command::ReadFrequency,
                CivError::InvalidFrame,
            ) || (exists|resp: Response|
                replied(config_dst_filter(old(self).config), Command::ReadFrequency, resp) && !(resp matches Response::Frequency(_))
                    && resp != Response::Ng),
    {
        match self.send_command(&Command::ReadFrequency) {
            Ok(Response::Frequency(f)) => {
                proof {
                    let fv = choose|fv: FrameView|
                        reply_matches(
                            fv,
                            config_dst_filter(old(self).config),
                            Option::Some(command_byte_of(Command::ReadFrequency)),
                        ) && parse_response_spec(fv, Command::ReadFrequency) == Ok::<
                            Response,
                            CivError,
                        >(Response::Frequency(f));
                    crate::response::lemma_response_frequency_wf(fv, Command::ReadFrequency);
                }
                Ok(f)
            },
            Ok(Response::Ng) => Err(CivError::Ng),
            Ok(_) => Err(CivError::InvalidFrame),
            Err(e) => Err(e),
        }
    }

    /// Set the operating frequency.
    pub fn set_frequency(&mut self, freq: Frequency) -> (r: Result<(), CivError>)
        requires
            freq.wf(),
        ensures
            final(self).config == old(self).config,
            r is Ok ==> replied(
                config_dst_filter(old(self).config),
                Command::SetFrequency(freq),
                Response::Okay,
            ),
            r == Err::<(), CivError>(CivError::Ng) ==> replied(
                config_dst_filter(old(self).config),
                Command::SetFrequency(freq),
                Response::Ng,
            ),
            r == Err::<(), CivError>(CivError::InvalidFrame) ==> replied_err(
                config_dst_filter(old(self).config),
                Command::SetFrequency(freq),
                CivError::InvalidFrame,
            ) || (exists|resp: Response|
                replied(config_dst_filter(old(self).config), Command::SetFrequency(freq), resp) && resp != Response::Okay
                    && resp != Response::Ng),
    {
        match self.send_command(&Command::SetFrequency(freq)) {
            Ok(Response::Okay) => Ok(()),
            Ok(Response::Ng) => Err(CivError::Ng),
            Ok(_) => Err(CivError::InvalidFrame),
            Err(e) => Err(e),
        }
    }

    /// Read the current operating mode.
    pub fn read_mode(&mut self) -> (r: Result<OperatingMode, CivError>)
        ensures
            final(self).config == old(self).config,
            r matches Ok(m) ==> replied(
                config_dst_filter(old(self).config),
                Command::ReadMode,
                Response::Mode(m),
            ),
            r == Err::<OperatingMode, CivError>(CivError::Ng) ==> replied(
                config_dst_filter(old(self).config),
                Command::ReadMode,
                Response::Ng,
            ),
            r == Err::<OperatingMode, CivError>(CivError::InvalidFrame) ==> replied_err(
                config_dst_filter(old(self).config),
                Command::ReadMode,
                CivError::InvalidFrame,
            ) || (exists|resp: Response|
                replied(config_dst_filter(old(self).config), Command::ReadMode, resp) && !(resp matches Response::Mode(_))
                    && resp != Response::Ng),
    {
        match self.send_command(&Command::ReadMode) {
            Ok(Response::Mode(m)) => Ok(m),
            Ok(Response::Ng) => Err(CivError::Ng),
            Ok(_) => Err(CivError::InvalidFrame),
            Err(e) => Err(e),
        }
    }

    /// Set the operating mode.
    pub fn set_mode(&mut self, mode: OperatingMode) -> (r: Result<(), CivError>)
        ensures
            final(self).config == old(self).config,
            r is Ok ==> replied(
                config_dst_filter(old(self).config),
                Command::SetMode(mode),
                Response::Okay,
            ),
            r == Err::<(), CivError>(CivError::Ng) ==> replied(
                config_dst_filter(old(self).config),
                Command::SetMode(mode),
                Response::Ng,
            ),
            r == Err::<(), CivError>(CivError::InvalidFrame) ==> replied_err(
                config_dst_filter(old(self).config),
                Command::SetMode(mode),
                CivError::InvalidFrame,
            ) || (exists|resp: Response|
                replied(config_dst_filter(old(self).config), Command::SetMode(mode), resp) && resp != Response::Okay
                    && resp != Response::Ng),
    {
        match self.send_command(&Command::SetMode(mode)) {
            Ok(Response::Okay) => Ok(()),
            Ok(Response::Ng) => Err(CivError::Ng),
            Ok(_) => Err(CivError::InvalidFrame),
            Err(e) => Err(e),
        }
    }

    /// Read the S-meter level (0-255 raw scale).
    pub fn read_s_meter(&mut self) -> (r: Result<u16, CivError>)
        ensures
            final(self).config == old(self).config,
            r matches Ok(v) ==> replied(
                config_dst_filter(old(self).config),
                Command::ReadMeter(METER_S),
                Response::Meter(METER_S, v),
            ),
            r == Err::<u16, CivError>(CivError::Ng) ==> replied(
                config_dst_filter(old(self).config),
                Command::ReadMeter(METER_S),
                Response::Ng,
            ),
            r == Err::<u16, CivError>(CivError::InvalidFrame) ==> replied_err(
                config_dst_filter(old(self).config),
                Command::ReadMeter(METER_S),
                CivError::InvalidFrame,
            ) || (exists|resp: Response|
                replied(config_dst_filter(old(self).config), Command::ReadMeter(METER_S), resp) && !(resp matches Response::Meter(_, _))
                    && resp != Response::Ng),
    {
        match self.send_command(&Command::ReadMeter(METER_S)) {
            Ok(Response::Meter(sub, v)) => {
                proof {
                    let fv = choose|fv: FrameView|
                        reply_matches(
                            fv,
                            config_dst_filter(old(self).config),
                            Option::Some(command_byte_of(Command::ReadMeter(METER_S))),
                        ) && parse_response_spec(fv, Command::ReadMeter(METER_S)) == Ok::<
                            Response,
                            CivError,
                        >(Response::Meter(sub, v));
                    assert(sub == METER_S);
                }
                Ok(v)
            },
            Ok(Response::Ng) => Err(CivError::Ng),
            Ok(_) => Err(CivError::InvalidFrame),
            Err(e) => Err(e),
        }
    }

    /// Read the AF (volume) level (0-255 raw scale).
    pub fn read_af_level(&mut self) -> (r: Result<u16, CivError>)
        ensures
            final(self).config == old(self).config,
            r matches Ok(v) ==> replied(
                config_dst_filter(old(self).config),
                Command::ReadLevel(LEVEL_AF),
                Response::Level(LEVEL_AF, v),
            ),
            r == Err::<u16, CivError>(CivError::Ng) ==> replied(
                config_dst_filter(old(self).config),
                Command::ReadLevel(LEVEL_AF),
                Response::Ng,
            ),
            r == Err::<u16, CivError>(CivError::InvalidFrame) ==> replied_err(
                config_dst_filter(old(self).config),
                Command::ReadLevel(LEVEL_AF),
                CivError::InvalidFrame,
            ) || (exists|resp: Response|
                replied(config_dst_filter(old(self).config), Command::ReadLevel(LEVEL_AF), resp) && !(resp matches Response::Level(_, _))
                    && resp != Response::Ng),
    {
        match self.send_command(&Command::ReadLevel(LEVEL_AF)) {
            Ok(Response::Level(sub, v)) => {
                proof {
                    let fv = choose|fv: FrameView|
                        reply_matches(
                            fv,
                            config_dst_filter(old(self).config),
                            Option::Some(command_byte_of(Command::ReadLevel(LEVEL_AF))),
                        ) && parse_response_spec(fv, Command::ReadLevel(LEVEL_AF)) == Ok::<
                            Response,
                            CivError,
                        >(Response::Level(sub, v));
                    assert(sub == LEVEL_AF);
                }
                Ok(v)
            },
            Ok(Response::Ng) => Err(CivError::Ng),
            Ok(_) => Err(CivError::InvalidFrame),
            Err(e) => Err(e),
        }
    }

    /// Set the AF (volume) level (0-255 raw scale).
    pub fn set_af_level(&mut self, level: u16) -> (r: Result<(), CivError>)
        requires
            level <= 255,
        ensures
            final(self).config == old(self).config,
            r is Ok ==> replied(
                config_dst_filter(old(self).config),
                Command::SetLevel(LEVEL_AF, level),
                Response::Okay,
            ),
            r == Err::<(), CivError>(CivError::Ng) ==> replied(
                config_dst_filter(old(self).config),
                Command::SetLevel(LEVEL_AF, level),
                Response::Ng,
            ),
            r == Err::<(), CivError>(CivError::InvalidFrame) ==> replied_err(
                config_dst_filter(old(self).config),
                Command::SetLevel(LEVEL_AF, level),
                CivError::InvalidFrame,
            ) || (exists|resp: Response|
                replied(config_dst_filter(old(self).config), Command::SetLevel(LEVEL_AF, level), resp) && resp != Response::Okay
                    && resp != Response::Ng),
    {
        match self.send_command(&Command::SetLevel(LEVEL_AF, level)) {
            Ok(Response::Okay) => Ok(()),
            Ok(Response::Ng) => Err(CivError::Ng),
            Ok(_) => Err(CivError::InvalidFrame),
            Err(e) => Err(e),
        }
    }

    /// Set the squelch level (0-255 raw scale).
    pub fn set_squelch(&mut self, level: u16) -> (r: Result<(), CivError>)
        requires
            level <= 255,
        ensures
            final(self).config == old(self).config,
            r is Ok ==> replied(
                config_dst_filter(old(self).config),
                Command::SetLevel(LEVEL_SQUELCH, level),
                Response::Okay,
            ),
            r == Err::<(), CivError>(CivError::Ng) ==> replied(
                config_dst_filter(old(self).config),
                Command::SetLevel(LEVEL_SQUELCH, level),
                Response::Ng,
            ),
            r == Err::<(), CivError>(CivError::InvalidFrame) ==> replied_err(
                config_dst_filter(old(self).config),
                Command::SetLevel(LEVEL_SQUELCH, level),
                CivError::InvalidFrame,
            ) || (exists|resp: Response|
                replied(config_dst_filter(old(self).config), Command::SetLevel(LEVEL_SQUELCH, level), resp) && resp != Response::Okay
                    && resp != Response::Ng),
    {
        match self.send_command(&Command::SetLevel(LEVEL_SQUELCH, level)) {
            Ok(Response::Okay) => Ok(()),
            Ok(Response::Ng) => Err(CivError::Ng),
            Ok(_) => Err(CivError::InvalidFrame),
            Err(e) => Err(e),
        }
    }

    /// Read the squelch level (0-255 raw scale).
    pub fn read_squelch(&mut self) -> (r: Result<u16, CivError>)
        ensures
            final(self).config == old(self).config,
            r matches Ok(v) ==> replied(
                config_dst_filter(old(self).config),
                Command::ReadLevel(LEVEL_SQUELCH),
                Response::Level(LEVEL_SQUELCH, v),
            ),
            r == Err::<u16, CivError>(CivError::Ng) ==> replied(
                config_dst_filter(old(self).config),
                Command::ReadLevel(LEVEL_SQUELCH),
                Response::Ng,
            ),
            r == Err::<u16, CivError>(CivError::InvalidFrame) ==> replied_err(
                config_dst_filter(old(self).config),
                Command::ReadLevel(LEVEL_SQUELCH),
                CivError::InvalidFrame,
            ) || (exists|resp: Response|
                replied(config_dst_filter(old(self).config), Command::ReadLevel(LEVEL_SQUELCH), resp) && !(resp matches Response::Level(_, _))
                    && resp != Response::Ng),
    {
        match self.send_command(&Command::ReadLevel(LEVEL_SQUELCH)) {
            Ok(Response::Level(sub, v)) => {
                proof {
                    let fv = choose|fv: FrameView|
                        reply_matches(
                            fv,
                            config_dst_filter(old(self).config),
                            Option::Some(command_byte_of(Command::ReadLevel(LEVEL_SQUELCH))),
                        ) && parse_response_spec(fv, Command::ReadLevel(LEVEL_SQUELCH)) == Ok::<
                            Response,
                            CivError,
                        >(Response::Level(sub, v));
                    assert(sub == LEVEL_SQUELCH);
                }
                Ok(v)
            },
            Ok(Response::Ng) => Err(CivError::Ng),
            Ok(_) => Err(CivError::InvalidFrame),
            Err(e) => Err(e),
        }
    }

    /// Select VFO/band A.
    pub fn select_vfo_a(&mut self) -> (r: Result<(), CivError>)
        ensures
            final(self).config == old(self).config,
            r is Ok ==> replied(
                config_dst_filter(old(self).config),
                Command::SelectVfoA,
                Response::Okay,
            ),
            r == Err::<(), CivError>(CivError::Ng) ==> replied(
                config_dst_filter(old(self).config),
                Command::SelectVfoA,
                Response::Ng,
            ),
            r == Err::<(), CivError>(CivError::InvalidFrame) ==> replied_err(
                config_dst_filter(old(self).config),
                Command::SelectVfoA,
                CivError::InvalidFrame,
            ) || (exists|resp: Response|
                replied(config_dst_filter(old(self).config), Command::SelectVfoA, resp) && resp != Response::Okay
                    && resp != Response::Ng),
    {
        match self.send_command(&Command::SelectVfoA) {
            Ok(Response::Okay) => Ok(()),
            Ok(Response::Ng) => Err(CivError::Ng),
            Ok(_) => Err(CivError::InvalidFrame),
            Err(e) => Err(e),
        }
    }

    /// Select VFO/band B.
    pub fn select_vfo_b(&mut self) -> (r: Result<(), CivError>)
        ensures
            final(self).config == old(self).config,
            r is Ok ==> replied(
                config_dst_filter(old(self).config),
                Command::SelectVfoB,
                Response::Okay,
            ),
            r == Err::<(), CivError>(CivError::Ng) ==> replied(
                config_dst_filter(old(self).config),
                Command::SelectVfoB,
                Response::Ng,
            ),
            r == Err::<(), CivError>(CivError::InvalidFrame) ==> replied_err(
                config_dst_filter(old(self).config),
                Command::SelectVfoB,
                CivError::InvalidFrame,
            ) || (exists|resp: Response|
                replied(config_dst_filter(old(self).config), Command::SelectVfoB, resp) && resp != Response::Okay
                    && resp != Response::Ng),
    {
        match self.send_command(&Command::SelectVfoB) {
            Ok(Response::Okay) => Ok(()),
            Ok(Response::Ng) => Err(CivError::Ng),
            Ok(_) => Err(CivError::InvalidFrame),
            Err(e) => Err(e),
        }
    }

    /// Read the RF power level (0-255 raw scale).
    pub fn read_rf_power(&mut self) -> (r: Result<u16, CivError>)
        ensures
            final(self).config == old(self).config,
            r matches Ok(v) ==> replied(
                config_dst_filter(old(self).config),
                Command::ReadLevel(LEVEL_RF_POWER),
                Response::Level(LEVEL_RF_POWER, v),
            ),
            r == Err::<u16, CivError>(CivError::Ng) ==> replied(
                config_dst_filter(old(self).config),
                Command::ReadLevel(LEVEL_RF_POWER),
                Response::Ng,
            ),
            r == Err::<u16, CivError>(CivError::InvalidFrame) ==> replied_err(
                config_dst_filter(old(self).config),
                Command::ReadLevel(LEVEL_RF_POWER),
                CivError::InvalidFrame,
            ) || (exists|resp: Response|
                replied(config_dst_filter(old(self).config), Command::ReadLevel(LEVEL_RF_POWER), resp) && !(resp matches Response::Level(_, _))
                    && resp != Response::Ng),
    {
        match self.send_command(&Command::ReadLevel(LEVEL_RF_POWER)) {
            Ok(Response::Level(sub, v)) => {
                proof {
                    let fv = choose|fv: FrameView|
                        reply_matches(
                            fv,
                            config_dst_filter(old(self).config),
                            Option::Some(command_byte_of(Command::ReadLevel(LEVEL_RF_POWER))),
                        ) && parse_response_spec(fv, Command::ReadLevel(LEVEL_RF_POWER)) == Ok::<
                            Response,
                            CivError,
                        >(Response::Level(sub, v));
                    assert(sub == LEVEL_RF_POWER);
                }
                Ok(v)
            },
            Ok(Response::Ng) => Err(CivError::Ng),
            Ok(_) => Err(CivError::InvalidFrame),
            Err(e) => Err(e),
        }
    }

    /// Set the RF power level (0-255 raw scale).
    pub fn set_rf_power(&mut self, level: u16) -> (r: Result<(), CivError>)
        requires
            level <= 255,
        ensures
            final(self).config == old(self).config,
            r is Ok ==> replied(
                config_dst_filter(old(self).config),
                Command::SetLevel(LEVEL_RF_POWER, level),
                Response::Okay,
            ),
            r == Err::<(), CivError>(CivError::Ng) ==> replied(
                config_dst_filter(old(self).config),
                Command::SetLevel(LEVEL_RF_POWER, level),
                Response::Ng,
            ),
            r == Err::<(), CivError>(CivError::InvalidFrame) ==> replied_err(
                config_dst_filter(old(self).config),
                Command::SetLevel(LEVEL_RF_POWER, level),
                CivError::InvalidFrame,
            ) || (exists|resp: Response|
                replied(config_dst_filter(old(self).config), Command::SetLevel(LEVEL_RF_POWER, level), resp) && resp != Response::Okay
                    && resp != Response::Ng),
    {
        match self.send_command(&Command::SetLevel(LEVEL_RF_POWER, level)) {
            Ok(Response::Okay) => Ok(()),
            Ok(Response::Ng) => Err(CivError::Ng),
            Ok(_) => Err(CivError::InvalidFrame),
            Err(e) => Err(e),
        }
    }

    /// Read a various-function setting; the result is the raw byte.
    pub fn read_various(&mut self, sub: u8) -> (r: Result<u8, CivError>)
        ensures
            final(self).config == old(self).config,
            r matches Ok(v) ==> replied(
                config_dst_filter(old(self).config),
                Command::ReadVarious(sub),
                Response::Various(sub, v),
            ),
            r == Err::<u8, CivError>(CivError::Ng) ==> replied(
                config_dst_filter(old(self).config),
                Command::ReadVarious(sub),
                Response::Ng,
            ),
            r == Err::<u8, CivError>(CivError::InvalidFrame) ==> replied_err(
                config_dst_filter(old(self).config),
                Command::ReadVarious(sub),
                CivError::InvalidFrame,
            ) || (exists|resp: Response|
                replied(config_dst_filter(old(self).config), Command::ReadVarious(sub), resp) && !(resp matches Response::Various(_, _))
                    && resp != Response::Ng),
    {
        match self.send_command(&Command::ReadVarious(sub)) {
            Ok(Response::Various(s, v)) => {
                proof {
                    let fv = choose|fv: FrameView|
                        reply_matches(
                            fv,
                            config_dst_filter(old(self).config),
                            Option::Some(command_byte_of(Command::ReadVarious(sub))),
                        ) && parse_response_spec(fv, Command::ReadVarious(sub)) == Ok::<
                            Response,
                            CivError,
                        >(Response::Various(s, v));
                    assert(s == sub);
                }
                Ok(v)
            },
            Ok(Response::Ng) => Err(CivError::Ng),
            Ok(_) => Err(CivError::InvalidFrame),
            Err(e) => Err(e),
        }
    }

    /// Read the combined tone/squelch function code (0x00-0x09).
    pub fn read_tone_mode(&mut self) -> (r: Result<u8, CivError>)
        ensures
            final(self).config == old(self).config,
            r matches Ok(v) ==> replied(
                config_dst_filter(old(self).config),
                Command::ReadVarious(VARIOUS_TONE_SQUELCH_FUNC),
                Response::Various(VARIOUS_TONE_SQUELCH_FUNC, v),
            ),
            r == Err::<u8, CivError>(CivError::Ng) ==> replied(
                config_dst_filter(old(self).config),
                Command::ReadVarious(VARIOUS_TONE_SQUELCH_FUNC),
                Response::Ng,
            ),
            r == Err::<u8, CivError>(CivError::InvalidFrame) ==> replied_err(
                config_dst_filter(old(self).config),
                Command::ReadVarious(VARIOUS_TONE_SQUELCH_FUNC),
                CivError::InvalidFrame,
            ) || (exists|resp: Response|
                replied(config_dst_filter(old(self).config), Command::ReadVarious(VARIOUS_TONE_SQUELCH_FUNC), resp) && !(resp matches Response::Various(_, _))
                    && resp != Response::Ng),
    {
        self.read_various(VARIOUS_TONE_SQUELCH_FUNC)
    }

    /// Read the duplex direction (0x10 simplex, 0x11 down, 0x12 up).
    pub fn read_duplex(&mut self) -> (r: Result<u8, CivError>)
        ensures
            final(self).config == old(self).config,
            r matches Ok(d) ==> replied(
                config_dst_filter(old(self).config),
                Command::ReadDuplex,
                Response::Duplex(d),
            ),
            r == Err::<u8, CivError>(CivError::Ng) ==> replied(
                config_dst_filter(old(self).config),
                Command::ReadDuplex,
                Response::Ng,
            ),
            r == Err::<u8, CivError>(CivError::InvalidFrame) ==> replied_err(
                config_dst_filter(old(self).config),
                Command::ReadDuplex,
                CivError::InvalidFrame,
            ) || (exists|resp: Response|
                replied(config_dst_filter(old(self).config), Command::ReadDuplex, resp) && !(resp matches Response::Duplex(_))
                    && resp != Response::Ng),
    {
        match self.send_command(&Command::ReadDuplex) {
            Ok(Response::Duplex(d)) => Ok(d),
            Ok(Response::Ng) => Err(CivError::Ng),
            Ok(_) => Err(CivError::InvalidFrame),
            Err(e) => Err(e),
        }
    }

    /// Read the duplex offset frequency.
    pub fn read_offset(&mut self) -> (r: Result<Frequency, CivError>)
        ensures
            final(self).config == old(self).config,
            r matches Ok(freq) ==> freq.wf() && replied(
                config_dst_filter(old(self).config),
                Command::ReadOffset,
                Response::Offset(freq),
            ),
            r == Err::<Frequency, CivError>(CivError::Ng) ==> replied(
                config_dst_filter(old(self).config),
                Command::ReadOffset,
                Response::Ng,
            ),
            r == Err::<Frequency, CivError>(CivError::InvalidFrame) ==> replied_err(
                config_dst_filter(old(self).config),
                Command::ReadOffset,
                CivError::InvalidFrame,
            ) || (exists|resp: Response|
                replied(config_dst_filter(old(self).config), Command::ReadOffset, resp) && !(resp matches Response::Offset(_))
                    && resp != Response::Ng),
    {
        match self.send_command(&Command::ReadOffset) {
            Ok(Response::Offset(f)) => {
                proof {
                    let fv = choose|fv: FrameView|
                        reply_matches(
                            fv,
                            config_dst_filter(old(self).config),
                            Option::Some(command_byte_of(Command::ReadOffset)),
                        ) && parse_response_spec(fv, Command::ReadOffset) == Ok::<
                            Response,
                            CivError,
                        >(Response::Offset(f));
                    crate::response::lemma_response_frequency_wf(fv, Command::ReadOffset);
                }
                Ok(f)
            },
            Ok(Response::Ng) => Err(CivError::Ng),
            Ok(_) => Err(CivError::InvalidFrame),
            Err(e) => Err(e),
        }
    }

    /// Read the repeater tone (Tx) frequency in tenths of Hz.
    pub fn read_tx_tone(&mut self) -> (r: Result<u16, CivError>)
        ensures
            final(self).config == old(self).config,
            r matches Ok(v) ==> replied(
                config_dst_filter(old(self).config),
                Command::ReadTone(TONE_SUB_REPEATER),
                Response::ToneFrequency(TONE_SUB_REPEATER, v),
            ),
            r == Err::<u16, CivError>(CivError::Ng) ==> replied(
                config_dst_filter(old(self).config),
                Command::ReadTone(TONE_SUB_REPEATER),
                Response::Ng,
            ),
            r == Err::<u16, CivError>(CivError::InvalidFrame) ==> replied_err(
                config_dst_filter(old(self).config),
                Command::ReadTone(TONE_SUB_REPEATER),
                CivError::InvalidFrame,
            ) || (exists|resp: Response|
                replied(config_dst_filter(old(self).config), Command::ReadTone(TONE_SUB_REPEATER), resp) && !(resp matches Response::ToneFrequency(_, _))
                    && resp != Response::Ng),
    {
        match self.send_command(&Command::ReadTone(TONE_SUB_REPEATER)) {
            Ok(Response::ToneFrequency(sub, v)) => {
                proof {
                    let fv = choose|fv: FrameView|
                        reply_matches(
                            fv,
                            config_dst_filter(old(self).config),
                            Option::Some(command_byte_of(Command::ReadTone(TONE_SUB_REPEATER))),
                        ) && parse_response_spec(fv, Command::ReadTone(TONE_SUB_REPEATER)) == Ok::<
                            Response,
                            CivError,
                        >(Response::ToneFrequency(sub, v));
                    assert(sub == TONE_SUB_REPEATER);
                }
                Ok(v)
            },
            Ok(Response::Ng) => Err(CivError::Ng),
            Ok(_) => Err(CivError::InvalidFrame),
            Err(e) => Err(e),
        }
    }

    /// Read the TSQL tone (Rx) frequency in tenths of Hz.
    pub fn read_rx_tone(&mut self) -> (r: Result<u16, CivError>)
        ensures
            final(self).config == old(self).config,
            r matches Ok(v) ==> replied(
                config_dst_filter(old(self).config),
                Command::ReadTone(TONE_SUB_TSQL),
                Response::ToneFrequency(TONE_SUB_TSQL, v),
            ),
            r == Err::<u16, CivError>(CivError::Ng) ==> replied(
                config_dst_filter(old(self).config),
                Command::ReadTone(TONE_SUB_TSQL),
                Response::Ng,
            ),
            r == Err::<u16, CivError>(CivError::InvalidFrame) ==> replied_err(
                config_dst_filter(old(self).config),
                Command::ReadTone(TONE_SUB_TSQL),
                CivError::InvalidFrame,
            ) || (exists|resp: Response|
                replied(config_dst_filter(old(self).config), Command::ReadTone(TONE_SUB_TSQL), resp) && !(resp matches Response::ToneFrequency(_, _))
                    && resp != Response::Ng),
    {
        match self.send_command(&Command::ReadTone(TONE_SUB_TSQL)) {
            Ok(Response::ToneFrequency(sub, v)) => {
                proof {
                    let fv = choose|fv: FrameView|
                        reply_matches(
                            fv,
                            config_dst_filter(old(self).config),
                            Option::Some(command_byte_of(Command::ReadTone(TONE_SUB_TSQL))),
                        ) && parse_response_spec(fv, Command::ReadTone(TONE_SUB_TSQL)) == Ok::<
                            Response,
                            CivError,
                        >(Response::ToneFrequency(sub, v));
                    assert(sub == TONE_SUB_TSQL);
                }
                Ok(v)
            },
            Ok(Response::Ng) => Err(CivError::Ng),
            Ok(_) => Err(CivError::InvalidFrame),
            Err(e) => Err(e),
        }
    }

    /// Read the DTCS code and polarity: (tx polarity, rx polarity, code).
    pub fn read_dtcs(&mut self) -> (r: Result<(u8, u8, u16), CivError>)
        ensures
            final(self).config == old(self).config,
            r matches Ok(t) ==> replied(
                config_dst_filter(old(self).config),
                Command::ReadTone(TONE_SUB_DTCS),
                Response::DtcsCode(t.0, t.1, t.2),
            ),
            r == Err::<(u8, u8, u16), CivError>(CivError::Ng) ==> replied(
                config_dst_filter(old(self).config),
                Command::ReadTone(TONE_SUB_DTCS),
                Response::Ng,
            ),
            r == Err::<(u8, u8, u16), CivError>(CivError::InvalidFrame) ==> replied_err(
                config_dst_filter(old(self).config),
                Command::ReadTone(TONE_SUB_DTCS),
                CivError::InvalidFrame,
            ) || (exists|resp: Response|
                replied(config_dst_filter(old(self).config), Command::ReadTone(TONE_SUB_DTCS), resp) && !(resp matches Response::DtcsCode(_, _, _))
                    && resp != Response::Ng),
    {
        match self.send_command(&Command::ReadTone(TONE_SUB_DTCS)) {
            Ok(Response::DtcsCode(tx_pol, rx_pol, code)) => Ok((tx_pol, rx_pol, code)),
            Ok(Response::Ng) => Err(CivError::Ng),
            Ok(_) => Err(CivError::InvalidFrame),
            Err(e) => Err(e),
        }
    }

    /// Set the combined tone/squelch function code (0x00-0x09).
    pub fn set_tone_mode(&mut self, mode: u8) -> (r: Result<(), CivError>)
        ensures
            final(self).config == old(self).config,
            r is Ok ==> replied(
                config_dst_filter(old(self).config),
                Command::SetVarious(VARIOUS_TONE_SQUELCH_FUNC, mode),
                Response::Okay,
            ),
            r == Err::<(), CivError>(CivError::Ng) ==> replied(
                config_dst_filter(old(self).config),
                Command::SetVarious(VARIOUS_TONE_SQUELCH_FUNC, mode),
                Response::Ng,
            ),
            r == Err::<(), CivError>(CivError::InvalidFrame) ==> replied_err(
                config_dst_filter(old(self).config),
                Command::SetVarious(VARIOUS_TONE_SQUELCH_FUNC, mode),
                CivError::InvalidFrame,
            ) || (exists|resp: Response|
                replied(config_dst_filter(old(self).config), Command::SetVarious(VARIOUS_TONE_SQUELCH_FUNC, mode), resp) && resp != Response::Okay
                    && resp != Response::Ng),
    {
        match self.send_command(&Command::SetVarious(VARIOUS_TONE_SQUELCH_FUNC, mode)) {
            Ok(Response::Okay) => Ok(()),
            Ok(Response::Ng) => Err(CivError::Ng),
            Ok(_) => Err(CivError::InvalidFrame),
            Err(e) => Err(e),
        }
    }

    /// Set the repeater tone (Tx) frequency in tenths of Hz.
    pub fn set_tx_tone(&mut self, freq_tenths: u16) -> (r: Result<(), CivError>)
        requires
            freq_tenths <= 9999,
        ensures
            final(self).config == old(self).config,
            r is Ok ==> replied(
                config_dst_filter(old(self).config),
                Command::SetTone(TONE_SUB_REPEATER, freq_tenths),
                Response::Okay,
            ),
            r == Err::<(), CivError>(CivError::Ng) ==> replied(
                config_dst_filter(old(self).config),
                Command::SetTone(TONE_SUB_REPEATER, freq_tenths),
                Response::Ng,
            ),
            r == Err::<(), CivError>(CivError::InvalidFrame) ==> replied_err(
                config_dst_filter(old(self).config),
                Command::SetTone(TONE_SUB_REPEATER, freq_tenths),
                CivError::InvalidFrame,
            ) || (exists|resp: Response|
                replied(config_dst_filter(old(self).config), Command::SetTone(TONE_SUB_REPEATER, freq_tenths), resp) && resp != Response::Okay
                    && resp != Response::Ng),
    {
        match self.send_command(&Command::SetTone(TONE_SUB_REPEATER, freq_tenths)) {
            Ok(Response::Okay) => Ok(()),
            Ok(Response::Ng) => Err(CivError::Ng),
            Ok(_) => Err(CivError::InvalidFrame),
            Err(e) => Err(e),
        }
    }

    /// Set the TSQL tone (Rx) frequency in tenths of Hz.
    pub fn set_rx_tone(&mut self, freq_tenths: u16) -> (r: Result<(), CivError>)
        requires
            freq_tenths <= 9999,
        ensures
            final(self).config == old(self).config,
            r is Ok ==> replied(
                config_dst_filter(old(self).config),
                Command::SetTone(TONE_SUB_TSQL, freq_tenths),
                Response::Okay,
            ),
            r == Err::<(), CivError>(CivError::Ng) ==> replied(
                config_dst_filter(old(self).config),
                Command::SetTone(TONE_SUB_TSQL, freq_tenths),
                Response::Ng,
            ),
            r == Err::<(), CivError>(CivError::InvalidFrame) ==> replied_err(
                config_dst_filter(old(self).config),
                Command::SetTone(TONE_SUB_TSQL, freq_tenths),
                CivError::InvalidFrame,
            ) || (exists|resp: Response|
                replied(config_dst_filter(old(self).config), Command::SetTone(TONE_SUB_TSQL, freq_tenths), resp) && resp != Response::Okay
                    && resp != Response::Ng),
    {
        match self.send_command(&Command::SetTone(TONE_SUB_TSQL, freq_tenths)) {
            Ok(Response::Okay) => Ok(()),
            Ok(Response::Ng) => Err(CivError::Ng),
            Ok(_) => Err(CivError::InvalidFrame),
            Err(e) => Err(e),
        }
    }

    /// Set the DTCS code and polarity.
    pub fn set_dtcs(&mut self, tx_pol: u8, rx_pol: u8, code: u16) -> (r: Result<(), CivError>)
        requires
            tx_pol <= 1,
            rx_pol <= 1,
            code <= 999,
        ensures
            final(self).config == old(self).config,
            r is Ok ==> replied(
                config_dst_filter(old(self).config),
                Command::SetDtcs(tx_pol, rx_pol, code),
                Response::Okay,
            ),
            r == Err::<(), CivError>(CivError::Ng) ==> replied(
                config_dst_filter(old(self).config),
                Command::SetDtcs(tx_pol, rx_pol, code),
                Response::Ng,
            ),
            r == Err::<(), CivError>(CivError::InvalidFrame) ==> replied_err(
                config_dst_filter(old(self).config),
                Command::SetDtcs(tx_pol, rx_pol, code),
                CivError::InvalidFrame,
            ) || (exists|resp: Response|
                replied(config_dst_filter(old(self).config), Command::SetDtcs(tx_pol, rx_pol, code), resp) && resp != Response::Okay
                    && resp != Response::Ng),
    {
        match self.send_command(&Command::SetDtcs(tx_pol, rx_pol, code)) {
            Ok(Response::Okay) => Ok(()),
            Ok(Response::Ng) => Err(CivError::Ng),
            Ok(_) => Err(CivError::InvalidFrame),
            Err(e) => Err(e),
        }
    }
}

/// Search a byte buffer for the first frame addressed to the controller,
/// skipping echoes of this side's own transmissions and malformed spans.
///
/// Bit-rate discovery polls with this: at a wrong rate nothing decodes as
/// a well-formed frame addressed to the controller, so any hit proves the
/// chosen rate.
pub fn find_response_frame(buf: &[u8], controller_addr: u8) -> (r: Option<Frame>)
    ensures
        match scan_reply(buf@, Option::Some(controller_addr), Option::None) {
            Option::Some((fv, c)) => r matches Some(f) && f@ == fv,
            Option::None => r is None,
        },
{
    let len = buf.len();
    let mut work = copy_range(buf, 0, len);
    proof {
        assert(buf@.subrange(0, len as int) =~= buf@);
    }
    extract_reply_from(&mut work, Some(controller_addr), None)
}

/// One full poll cycle over the per-VFO fields: read each field through
/// its typed operation. A failed individual read leaves its own field
/// `None` and never invalidates sibling fields or the session; polling can
/// simply go on.
pub fn poll_vfo_state<T: Transport>(radio: &mut Radio<T>) -> (r: VfoState)
    ensures
        final(radio).config == old(radio).config,
        r.frequency matches Some(f) ==> f.wf() && replied(
            config_dst_filter(old(radio).config),
            Command::ReadFrequency,
            Response::Frequency(f),
        ),
        r.mode matches Some(m) ==> replied(
            config_dst_filter(old(radio).config),
            Command::ReadMode,
            Response::Mode(m),
        ),
        r.rf_power matches Some(v) ==> replied(
            config_dst_filter(old(radio).config),
            Command::ReadLevel(LEVEL_RF_POWER),
            Response::Level(LEVEL_RF_POWER, v),
        ),
        r.tone_mode matches Some(v) ==> replied(
            config_dst_filter(old(radio).config),
            Command::ReadVarious(VARIOUS_TONE_SQUELCH_FUNC),
            Response::Various(VARIOUS_TONE_SQUELCH_FUNC, v),
        ),
        r.duplex matches Some(d) ==> replied(
            config_dst_filter(old(radio).config),
            Command::ReadDuplex,
            Response::Duplex(d),
        ),
        r.offset matches Some(f) ==> f.wf() && replied(
            config_dst_filter(old(radio).config),
            Command::ReadOffset,
            Response::Offset(f),
        ),
        r.tx_tone_freq matches Some(v) ==> replied(
            config_dst_filter(old(radio).config),
            Command::ReadTone(TONE_SUB_REPEATER),
            Response::ToneFrequency(TONE_SUB_REPEATER, v),
        ),
        r.rx_tone_freq matches Some(v) ==> replied(
            config_dst_filter(old(radio).config),
            Command::ReadTone(TONE_SUB_TSQL),
            Response::ToneFrequency(TONE_SUB_TSQL, v),
        ),
        r.dtcs_code is Some <==> r.dtcs_tx_pol is Some,
        r.dtcs_code is Some <==> r.dtcs_rx_pol is Some,
        r.dtcs_code matches Some(code) ==> r.dtcs_tx_pol matches Some(tx_pol)
            && r.dtcs_rx_pol matches Some(rx_pol) && replied(
            config_dst_filter(old(radio).config),
            Command::ReadTone(TONE_SUB_DTCS),
            Response::DtcsCode(tx_pol, rx_pol, code),
        ),
{
    let frequency = match radio.read_frequency() {
        Ok(f) => Some(f),
        Err(_) => None,
    };
    let mode = match radio.read_mode() {
        Ok(m) => Some(m),
        Err(_) => None,
    };
    let rf_power = match radio.read_rf_power() {
        Ok(v) => Some(v),
        Err(_) => None,
    };
    let tone_mode = match radio.read_tone_mode() {
        Ok(v) => Some(v),
        Err(_) => None,
    };
    let duplex = match radio.read_duplex() {
        Ok(d) => Some(d),
        Err(_) => None,
    };
    let offset = match radio.read_offset() {
        Ok(f) => Some(f),
        Err(_) => None,
    };
    let tx_tone_freq = match radio.read_tx_tone() {
        Ok(v) => Some(v),
        Err(_) => None,
    };
    let rx_tone_freq = match radio.read_rx_tone() {
        Ok(v) => Some(v),
        Err(_) => None,
    };
    let (dtcs_tx_pol, dtcs_rx_pol, dtcs_code) = match radio.read_dtcs() {
        Ok((tx_pol, rx_pol, code)) => {
            proof {
                assert(replied(
                    config_dst_filter(old(radio).config),
                    Command::ReadTone(TONE_SUB_DTCS),
                    Response::DtcsCode(tx_pol, rx_pol, code),
                ));
            }
            (Some(tx_pol), Some(rx_pol), Some(code))
        },
        Err(_) => (None, None, None),
    };
    VfoState {
        frequency,
        mode,
        rf_power,
        tone_mode,
        tx_tone_freq,
        rx_tone_freq,
        dtcs_code,
        dtcs_tx_pol,
        dtcs_rx_pol,
        duplex,
        offset,
    }
}

/// The concatenated wire bytes of a list of frames.
pub open spec fn concat_wire(frames: Seq<FrameView>) -> Seq<u8>
    decreases frames.len(),
{
    if frames.len() == 0 {
        Seq::empty()
    } else {
        wire_bytes(frames[0]) + concat_wire(frames.skip(1))
    }
}

/// The reader skips any run of noise frames — echoes of this side's own
/// transmissions and unsolicited notifications, in any order — and returns
/// the first qualifying reply, consuming exactly the bytes of every
/// skipped frame and of the reply itself.
pub proof fn lemma_reader_skips_noise(
    noise: Seq<FrameView>,
    reply: FrameView,
    dst_filter: Option<u8>,
    expected_cmd: Option<u8>,
)
    requires
        forall|i: int|
            0 <= i < noise.len() ==> frame_wire_wf(#[trigger] noise[i]) && !reply_matches(
                noise[i],
                dst_filter,
                expected_cmd,
            ),
        frame_wire_wf(reply),
        reply_matches(reply, dst_filter, expected_cmd),
    ensures
        scan_reply(concat_wire(noise) + wire_bytes(reply), dst_filter, expected_cmd)
            == Option::Some(
            (reply, concat_wire(noise).len() + wire_bytes(reply).len() as int),
        ),
    decreases noise.len(),
{
    let w = wire_bytes(reply);
    if noise.len() == 0 {
        let s = concat_wire(noise) + w;
        assert(s =~= Seq::<u8>::empty() + w + Seq::<u8>::empty());
        lemma_parse_skips_garbage(Seq::empty(), reply, Seq::empty());
        assert(parse_spec(s) == (ParseOutcome::Complete {
            frame: reply,
            start: 0,
            end: w.len() - 1,
        }));
        assert(w.len() >= 6);
        assert(scan_reply(s, dst_filter, expected_cmd) == Option::Some(
            (reply, w.len() as int),
        ));
    } else {
        let f0 = noise[0];
        let w0 = wire_bytes(f0);
        let rest = concat_wire(noise.skip(1)) + w;
        let s = concat_wire(noise) + w;
        assert(s =~= w0 + rest);
        assert(s =~= Seq::<u8>::empty() + w0 + rest);
        lemma_parse_skips_garbage(Seq::empty(), f0, rest);
        assert(parse_spec(s) == (ParseOutcome::Complete {
            frame: f0,
            start: 0,
            end: w0.len() - 1,
        }));
        assert(w0.len() >= 6);
        assert(s.skip(w0.len() as int) =~= rest);
        assert(forall|i: int|
            0 <= i < noise.skip(1).len() ==> frame_wire_wf(#[trigger] noise.skip(1)[i])
                && !reply_matches(noise.skip(1)[i], dst_filter, expected_cmd));
        lemma_reader_skips_noise(noise.skip(1), reply, dst_filter, expected_cmd);
        assert(scan_reply(s, dst_filter, expected_cmd) == shift_scan(
            scan_reply(rest, dst_filter, expected_cmd),
            w0.len() as int,
        ));
    }
}

} // verus!
