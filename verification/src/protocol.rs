//! Wire-level framing: synchronization, length determination, serialization.
//!
//! A frame crosses the wire as `FE FE dst src cmd [sub] [data...] FD`. The
//! decoder scans an arbitrary byte buffer for the first two-byte preamble
//! run, then for the terminator, and extracts the frame in between. A
//! payload of one or more bytes is always read as `sub-command = payload[0]`
//! and `data = payload[1..]`; the reserved OK and NG command bytes never
//! carry a sub-command or data.

use vstd::prelude::*;

use crate::error::CivError;

verus! {

/// Frame preamble byte.
pub const PREAMBLE: u8 = 0xFE;

/// Frame end-of-message byte.
pub const EOM: u8 = 0xFD;

/// Command byte of the universal "accepted" reply.
pub const OK: u8 = 0xFB;

/// Command byte of the universal "rejected" reply.
pub const NG: u8 = 0xFA;

/// Conventional address of the radio on this device family.
pub const ADDR_ID52: u8 = 0xB4;

/// Conventional address of the controller (this side of the link).
pub const ADDR_CONTROLLER: u8 = 0xE0;

/// A parsed wire frame.
///
/// `sub_command` and `data` are optional and depend on the command.
#[derive(Debug, Clone, PartialEq, Eq)]
pub struct Frame {
    pub dst: u8,
    pub src: u8,
    pub command: u8,
    pub sub_command: Option<u8>,
    pub data: Vec<u8>,
}

/// The mathematical value of a `Frame`: the same fields with the data bytes
/// as a sequence.
pub struct FrameView {
    pub dst: u8,
    pub src: u8,
    pub command: u8,
    pub sub_command: Option<u8>,
    pub data: Seq<u8>,
}

impl View for Frame {
    type V = FrameView;

    open spec fn view(&self) -> FrameView {
        FrameView {
            dst: self.dst,
            src: self.src,
            command: self.command,
            sub_command: self.sub_command,
            data: self.data@,
        }
    }
}

/// The byte sequence of an optional sub-command: one byte or none.
pub open spec fn opt_byte_seq(o: Option<u8>) -> Seq<u8> {
    match o {
        Option::Some(b) => seq![b],
        Option::None => Seq::empty(),
    }
}

/// The wire bytes of a frame:
/// `PREAMBLE PREAMBLE dst src cmd [sub] data... EOM`.
pub open spec fn wire_bytes(f: FrameView) -> Seq<u8> {
    seq![PREAMBLE, PREAMBLE, f.dst, f.src, f.command] + opt_byte_seq(f.sub_command) + f.data
        + seq![EOM]
}

/// Position of the first two-byte preamble run at or after `i`.
pub open spec fn find_preamble_at(s: Seq<u8>, i: int) -> Option<int>
    decreases s.len() - i,
{
    if i < 0 || i + 1 >= s.len() {
        Option::None
    } else if s[i] == PREAMBLE && s[i + 1] == PREAMBLE {
        Option::Some(i)
    } else {
        find_preamble_at(s, i + 1)
    }
}

/// Position of the first occurrence of `target` at or after `i`.
pub open spec fn find_byte_at(s: Seq<u8>, target: u8, i: int) -> Option<int>
    decreases s.len() - i,
{
    if i < 0 || i >= s.len() {
        Option::None
    } else if s[i] == target {
        Option::Some(i)
    } else {
        find_byte_at(s, target, i + 1)
    }
}

/// What decoding a buffer yields: no complete frame yet, a span too short
/// to be a frame, or a frame with the positions of its preamble and
/// terminator.
pub enum ParseOutcome {
    /// No preamble run, or no terminator after it: more bytes are needed.
    Incomplete,
    /// A span from preamble to terminator shorter than the minimum frame.
    Short { start: int, end: int },
    /// A complete frame between `start` (first preamble byte) and `end`
    /// (the terminator).
    Complete { frame: FrameView, start: int, end: int },
}

/// The sub-command and data derived from a payload under the one-byte
/// ambiguity rule: any non-empty payload starts with the sub-command, and
/// the reserved OK/NG commands never carry either.
pub open spec fn payload_fields(command: u8, payload: Seq<u8>) -> (Option<u8>, Seq<u8>) {
    if command == OK || command == NG || payload.len() == 0 {
        (Option::None, Seq::empty())
    } else {
        (Option::Some(payload[0]), payload.skip(1))
    }
}

/// The frame spanning `s[start..=end]`, with the payload split per the
/// ambiguity rule.
pub open spec fn frame_at(s: Seq<u8>, start: int, end: int) -> FrameView {
    let payload = s.subrange(start + 5, end);
    let fields = payload_fields(s[start + 4], payload);
    FrameView {
        dst: s[start + 2],
        src: s[start + 3],
        command: s[start + 4],
        sub_command: fields.0,
        data: fields.1,
    }
}

/// The decode of a buffer: find the first preamble run, then the first
/// terminator from there; a span of fewer than 6 bytes is invalid.
pub open spec fn parse_spec(s: Seq<u8>) -> ParseOutcome {
    match find_preamble_at(s, 0) {
        Option::None => ParseOutcome::Incomplete,
        Option::Some(st) => match find_byte_at(s, EOM, st) {
            Option::None => ParseOutcome::Incomplete,
            Option::Some(e) => if e + 1 - st < 6 {
                ParseOutcome::Short { start: st, end: e }
            } else {
                ParseOutcome::Complete { frame: frame_at(s, st, e), start: st, end: e }
            },
        },
    }
}

/// A found preamble run lies in range and is preceded by no other.
pub proof fn lemma_find_preamble_props(s: Seq<u8>, i: int)
    requires
        0 <= i,
    ensures
        find_preamble_at(s, i) matches Some(p) ==> i <= p && p + 1 < s.len() && s[p] == PREAMBLE
            && s[p + 1] == PREAMBLE && forall|j: int| #![trigger s[j]]
            i <= j < p ==> !(s[j] == PREAMBLE && s[j + 1] == PREAMBLE),
        find_preamble_at(s, i) is None ==> forall|j: int| #![trigger s[j]]
            i <= j && j + 1 < s.len() ==> !(s[j] == PREAMBLE && s[j + 1] == PREAMBLE),
    decreases s.len() - i,
{
    if i + 1 >= s.len() {
    } else if s[i] == PREAMBLE && s[i + 1] == PREAMBLE {
    } else {
        lemma_find_preamble_props(s, i + 1);
    }
}

/// A found byte lies in range, matches, and is preceded by no other match.
pub proof fn lemma_find_byte_props(s: Seq<u8>, target: u8, i: int)
    requires
        0 <= i,
    ensures
        find_byte_at(s, target, i) matches Some(p) ==> i <= p && p < s.len() && s[p] == target
            && forall|j: int| i <= j < p ==> #[trigger] s[j] != target,
        find_byte_at(s, target, i) is None ==> forall|j: int|
            i <= j < s.len() ==> #[trigger] s[j] != target,
    decreases s.len() - i,
{
    if i >= s.len() {
    } else if s[i] == target {
    } else {
        lemma_find_byte_props(s, target, i + 1);
    }
}

/// Skipping positions that cannot match leaves the search unchanged.
pub proof fn lemma_find_preamble_skip(s: Seq<u8>, i: int, k: int)
    requires
        0 <= i <= k,
        forall|j: int| #![trigger s[j]] i <= j < k ==> !(s[j] == PREAMBLE && s[j + 1] == PREAMBLE),
    ensures
        find_preamble_at(s, i) == find_preamble_at(s, k),
    decreases k - i,
{
    if i < k {
        if i + 1 >= s.len() {
            lemma_find_preamble_props(s, k);
        } else {
            lemma_find_preamble_skip(s, i + 1, k);
        }
    }
}

/// Skipping positions that do not hold `target` leaves the search unchanged.
pub proof fn lemma_find_byte_skip(s: Seq<u8>, target: u8, i: int, k: int)
    requires
        0 <= i <= k,
        forall|j: int| i <= j < k ==> #[trigger] s[j] != target,
    ensures
        find_byte_at(s, target, i) == find_byte_at(s, target, k),
    decreases k - i,
{
    if i < k {
        if i >= s.len() {
            lemma_find_byte_props(s, target, k);
        } else {
            lemma_find_byte_skip(s, target, i + 1, k);
        }
    }
}

/// Find the first two-byte preamble run in a buffer.
pub fn find_preamble(buf: &[u8]) -> (r: Option<usize>)
    ensures
        match r {
            Option::Some(p) => find_preamble_at(buf@, 0) == Option::Some(p as int),
            Option::None => find_preamble_at(buf@, 0) is None,
        },
{
    let n = buf.len();
    if n == 0 {
        return None;
    }
    let mut i: usize = 0;
    while i < n - 1
        invariant
            i <= n,
            n == buf@.len(),
            n >= 1,
            find_preamble_at(buf@, 0) == find_preamble_at(buf@, i as int),
        decreases n - i,
    {
        if buf[i] == PREAMBLE && buf[i + 1] == PREAMBLE {
            return Some(i);
        }
        i = i + 1;
    }
    None
}

/// Find the first occurrence of `target` at or after `start`.
pub fn find_byte_from(buf: &[u8], target: u8, start: usize) -> (r: Option<usize>)
    ensures
        match r {
            Option::Some(p) => find_byte_at(buf@, target, start as int) == Option::Some(p as int),
            Option::None => find_byte_at(buf@, target, start as int) is None,
        },
{
    let n = buf.len();
    let mut i: usize = start;
    while i < n
        invariant
            start <= i,
            n == buf@.len(),
            find_byte_at(buf@, target, start as int) == find_byte_at(buf@, target, i as int),
        decreases n - i,
    {
        if buf[i] == target {
            return Some(i);
        }
        i = i + 1;
    }
    None
}

/// Copy `buf[from..to]` into a fresh vector.
pub(crate) fn copy_range(buf: &[u8], from: usize, to: usize) -> (r: Vec<u8>)
    requires
        from <= to <= buf@.len(),
    ensures
        r@ == buf@.subrange(from as int, to as int),
{
    let mut r: Vec<u8> = Vec::new();
    let mut i = from;
    while i < to
        invariant
            from <= i <= to <= buf@.len(),
            r@ == buf@.subrange(from as int, i as int),
        decreases to - i,
    {
        r.push(buf[i]);
        proof {
            assert(buf@.subrange(from as int, i + 1) =~= buf@.subrange(from as int, i as int)
                + seq![buf@[i as int]]);
        }
        i = i + 1;
    }
    r
}

impl Frame {
    /// Create a frame from the controller to the radio, with the
    /// conventional addresses of this device family.
    pub fn new(command: u8, sub_command: Option<u8>, data: Vec<u8>) -> (r: Frame)
        ensures
            r@ == (FrameView {
                dst: ADDR_ID52,
                src: ADDR_CONTROLLER,
                command,
                sub_command,
                data: data@,
            }),
    {
        Frame { dst: ADDR_ID52, src: ADDR_CONTROLLER, command, sub_command, data }
    }

    /// Serialize the frame to its wire representation.
    pub fn to_bytes(&self) -> (r: Vec<u8>)
        ensures
            r@ == wire_bytes(self@),
    {
        let mut bytes: Vec<u8> = Vec::new();
        bytes.push(PREAMBLE);
        bytes.push(PREAMBLE);
        bytes.push(self.dst);
        bytes.push(self.src);
        bytes.push(self.command);
        match self.sub_command {
            Option::Some(sc) => bytes.push(sc),
            Option::None => (),
        }
        let mut i: usize = 0;
        let ghost head = bytes@;
        while i < self.data.len()
            invariant
                i <= self.data@.len(),
                bytes@ == head + self.data@.subrange(0, i as int),
            decreases self.data@.len() - i,
        {
            bytes.push(self.data[i]);
            proof {
                assert(self.data@.subrange(0, i + 1) =~= self.data@.subrange(0, i as int) + seq![
                    self.data@[i as int],
                ]);
            }
            i = i + 1;
        }
        bytes.push(EOM);
        proof {
            assert(self.data@.subrange(0, self.data@.len() as int) =~= self.data@);
            assert(bytes@ =~= wire_bytes(self@));
        }
        bytes
    }

    /// Parse one frame out of a byte buffer that may hold garbage, partial
    /// frames, or several frames.
    ///
    /// Returns the first frame and the count of bytes from the start of its
    /// preamble run through its terminator; callers discarding the frame
    /// must drop the leading garbage as well. Returns `Ok(None)` when no
    /// complete frame is present yet, and `Err(InvalidFrame)` when the span
    /// from preamble to terminator is shorter than the minimum frame.
    pub fn parse(buf: &[u8]) -> (r: Result<Option<(Frame, usize)>, CivError>)
        ensures
            match parse_spec(buf@) {
                ParseOutcome::Incomplete => r == Ok::<Option<(Frame, usize)>, CivError>(None),
                ParseOutcome::Short { .. } => r == Err::<Option<(Frame, usize)>, CivError>(
                    CivError::InvalidFrame,
                ),
                ParseOutcome::Complete { frame, start, end } => match r {
                    Ok(Some((f, c))) => f@ == frame && c == end + 1 - start,
                    _ => false,
                },
            },
    {
        let start = match find_preamble(buf) {
            Some(s) => s,
            None => {
                return Ok(None);
            },
        };
        proof {
            lemma_find_preamble_props(buf@, 0);
        }
        let eom_pos = match find_byte_from(buf, EOM, start) {
            Some(e) => e,
            None => {
                return Ok(None);
            },
        };
        proof {
            lemma_find_byte_props(buf@, EOM, start as int);
        }
        // Minimum frame: preamble preamble dst src cmd terminator.
        if eom_pos - start < 5 {
            return Err(CivError::InvalidFrame);
        }
        let dst = buf[start + 2];
        let src = buf[start + 3];
        let command = buf[start + 4];
        let payload_len = eom_pos - (start + 5);
        let (sub_command, data) = if command == OK || command == NG || payload_len == 0 {
            (None, Vec::new())
        } else {
            (Some(buf[start + 5]), copy_range(buf, start + 6, eom_pos))
        };
        let consumed = eom_pos + 1 - start;
        proof {
            let s = buf@;
            let st = start as int;
            let e = eom_pos as int;
            let payload = s.subrange(st + 5, e);
            if !(command == OK || command == NG || payload_len == 0) {
                assert(payload[0] == s[st + 5]);
                assert(payload.skip(1) =~= s.subrange(st + 6, e));
            }
        }
        Ok(Some((Frame { dst, src, command, sub_command, data }, consumed)))
    }

    /// True for the universal "accepted" reply.
    pub fn is_ok(&self) -> (r: bool)
        ensures
            r == (self.command == OK),
    {
        self.command == OK
    }

    /// True for the universal "rejected" reply.
    pub fn is_ng(&self) -> (r: bool)
        ensures
            r == (self.command == NG),
    {
        self.command == NG
    }
}

/// A frame that can survive the wire: no field holds the terminator byte,
/// the reserved OK/NG commands carry no payload, and data comes only after
/// a sub-command (a lone data byte would decode as a sub-command).
pub open spec fn frame_wire_wf(f: FrameView) -> bool {
    &&& f.dst != EOM
    &&& f.src != EOM
    &&& f.command != EOM
    &&& (f.sub_command matches Some(b) ==> b != EOM)
    &&& (forall|i: int| 0 <= i < f.data.len() ==> #[trigger] f.data[i] != EOM)
    &&& ((f.command == OK || f.command == NG) ==> f.sub_command is None && f.data.len() == 0)
    &&& (f.sub_command is None ==> f.data.len() == 0)
}

/// The shape of a well-formed frame's wire bytes: at least 6 bytes, the
/// terminator only at the end, and the payload between command byte and
/// terminator equal to the optional sub-command followed by the data.
proof fn lemma_wire_shape(f: FrameView)
    requires
        frame_wire_wf(f),
    ensures
        wire_bytes(f).len() >= 6,
        wire_bytes(f).len() == 6 + opt_byte_seq(f.sub_command).len() + f.data.len(),
        wire_bytes(f)[0] == PREAMBLE,
        wire_bytes(f)[1] == PREAMBLE,
        wire_bytes(f)[2] == f.dst,
        wire_bytes(f)[3] == f.src,
        wire_bytes(f)[4] == f.command,
        wire_bytes(f).last() == EOM,
        forall|j: int| 0 <= j < wire_bytes(f).len() - 1 ==> #[trigger] wire_bytes(f)[j] != EOM,
        wire_bytes(f).subrange(5, wire_bytes(f).len() - 1) == opt_byte_seq(f.sub_command)
            + f.data,
{
    let w = wire_bytes(f);
    let payload = opt_byte_seq(f.sub_command) + f.data;
    assert(w.subrange(5, w.len() - 1) =~= payload);
    assert forall|j: int| 0 <= j < w.len() - 1 implies #[trigger] w[j] != EOM by {
        if j >= 5 {
            assert(w[j] == payload[j - 5]);
            match f.sub_command {
                Option::Some(b) => {
                    if j == 5 {
                        assert(payload[0] == b);
                    } else {
                        assert(payload[j - 5] == f.data[j - 6]);
                    }
                },
                Option::None => {
                    assert(payload[j - 5] == f.data[j - 5]);
                },
            }
        }
    }
}

/// Frame extraction tolerates leading garbage: in a buffer made of garbage
/// bytes (never two preamble bytes in a row, nor ending with one), then the
/// wire bytes of a well-formed frame, then anything, decoding finds that
/// frame, and the consumed count runs from the preamble, not from the
/// buffer start.
pub proof fn lemma_parse_skips_garbage(g: Seq<u8>, f: FrameView, rest: Seq<u8>)
    requires
        frame_wire_wf(f),
        forall|j: int| #![trigger g[j]]
            0 <= j < g.len() - 1 ==> !(g[j] == PREAMBLE && g[j + 1] == PREAMBLE),
        g.len() > 0 ==> g.last() != PREAMBLE,
    ensures
        parse_spec(g + wire_bytes(f) + rest) == (ParseOutcome::Complete {
            frame: f,
            start: g.len() as int,
            end: g.len() + wire_bytes(f).len() - 1,
        }),
{
    lemma_wire_shape(f);
    let w = wire_bytes(f);
    let n = w.len() as int;
    let s = g + w + rest;
    let st = g.len() as int;
    let e = st + n - 1;
    assert forall|j: int| 0 <= j < st implies !(s[j] == PREAMBLE && #[trigger] s[j + 1]
        == PREAMBLE) by {
        if j < st - 1 {
            assert(s[j] == g[j] && s[j + 1] == g[j + 1]);
        } else {
            assert(s[j] == g.last());
        }
    }
    lemma_find_preamble_skip(s, 0, st);
    assert(s[st] == PREAMBLE && s[st + 1] == PREAMBLE);
    assert(find_preamble_at(s, st) == Option::Some(st));
    assert forall|j: int| st <= j < e implies #[trigger] s[j] != EOM by {
        assert(s[j] == w[j - st]);
    }
    lemma_find_byte_skip(s, EOM, st, e);
    assert(s[e] == w[n - 1] && w[n - 1] == EOM);
    assert(find_byte_at(s, EOM, e) == Option::Some(e));
    assert(e + 1 - st >= 6);
    // The extracted fields are the frame's own.
    assert(s[st + 2] == w[2] && s[st + 3] == w[3] && s[st + 4] == w[4]);
    let payload = s.subrange(st + 5, e);
    assert(payload =~= w.subrange(5, n - 1));
    let fields = payload_fields(s[st + 4], payload);
    if f.command == OK || f.command == NG {
        assert(payload.len() == 0);
        assert(fields.0 == f.sub_command);
        assert(fields.1 =~= f.data);
    } else if payload.len() == 0 {
        assert(opt_byte_seq(f.sub_command).len() == 0 && f.data.len() == 0);
        assert(f.sub_command is None);
        assert(fields.0 == f.sub_command);
        assert(fields.1 =~= f.data);
    } else {
        assert(f.sub_command is Some) by {
            if f.sub_command is None {
                assert(f.data.len() == 0);
            }
        }
        let b = f.sub_command->0;
        assert(payload[0] == opt_byte_seq(f.sub_command)[0] && opt_byte_seq(f.sub_command)[0]
            == b);
        assert(payload.skip(1) =~= f.data);
        assert(fields.0 == f.sub_command);
        assert(fields.1 == f.data);
    }
    assert(frame_at(s, st, e) == f);
}

/// Frame round trip: decoding the wire bytes of any well-formed frame gives
/// the frame back, consuming exactly their length.
pub proof fn lemma_frame_round_trip(f: FrameView)
    requires
        frame_wire_wf(f),
    ensures
        parse_spec(wire_bytes(f)) == (ParseOutcome::Complete {
            frame: f,
            start: 0,
            end: wire_bytes(f).len() - 1,
        }),
{
    lemma_parse_skips_garbage(Seq::empty(), f, Seq::empty());
    assert(Seq::<u8>::empty() + wire_bytes(f) + Seq::<u8>::empty() =~= wire_bytes(f));
}

/// A payload of exactly one byte always decodes to a sub-command with no
/// data bytes, never the reverse, for any non-OK/NG command.
pub proof fn lemma_single_byte_payload(f: FrameView)
    requires
        frame_wire_wf(f),
        f.command != OK,
        f.command != NG,
        f.sub_command is Some,
        f.data.len() == 0,
    ensures
        parse_spec(wire_bytes(f)) matches ParseOutcome::Complete { frame, .. }
            && frame.sub_command == f.sub_command && frame.data.len() == 0,
{
    lemma_frame_round_trip(f);
}

} // verus!
