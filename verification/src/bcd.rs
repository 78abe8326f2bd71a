//! Binary-coded-decimal codec.
//!
//! A BCD byte holds two decimal digits, high nibble first; any nibble value
//! above 9 is invalid. Multi-byte sequences come in both digit orders:
//! little-endian (least-significant digit pair first) and big-endian.

use vstd::prelude::*;

use crate::error::CivError;

verus! {

/// True when both nibbles of `b` are decimal digits.
pub open spec fn bcd_byte_valid(b: u8) -> bool {
    (b >> 4) <= 9 && (b & 0x0F) <= 9
}

/// The two-digit value stored in a BCD byte, high nibble first.
pub open spec fn bcd_pair(b: u8) -> int {
    (b >> 4) * 10 + (b & 0x0F)
}

/// The BCD byte holding the two-digit value `v`; meaningful for 0 <= v <= 99.
pub open spec fn bcd_byte_of(v: int) -> u8 {
    (16 * (v / 10) + v % 10) as u8
}

/// True when every byte of `s` is a valid BCD byte.
pub open spec fn bcd_seq_valid(s: Seq<u8>) -> bool {
    forall|i: int| 0 <= i < s.len() ==> bcd_byte_valid(#[trigger] s[i])
}

/// Value of a little-endian BCD sequence: `s[0]` holds the two lowest digits.
pub open spec fn bcd_le_val(s: Seq<u8>) -> int
    decreases s.len(),
{
    if s.len() == 0 {
        0
    } else {
        bcd_pair(s[0]) + 100 * bcd_le_val(s.skip(1))
    }
}

/// Value of a big-endian BCD sequence: `s[0]` holds the two highest digits.
pub open spec fn bcd_be_val(s: Seq<u8>) -> int
    decreases s.len(),
{
    if s.len() == 0 {
        0
    } else {
        bcd_be_val(s.drop_last()) * 100 + bcd_pair(s.last())
    }
}

/// 100 to the power `n`: the number of values a BCD sequence of `n` bytes
/// can hold.
pub open spec fn pow100(n: nat) -> int
    decreases n,
{
    if n == 0 {
        1
    } else {
        100 * pow100((n - 1) as nat)
    }
}

/// Little-endian BCD encoding of `v` in exactly `len` bytes; digits above
/// `2 * len` are dropped.
pub open spec fn bcd_le_bytes(v: int, len: nat) -> Seq<u8>
    decreases len,
{
    if len == 0 {
        Seq::empty()
    } else {
        seq![bcd_byte_of(v % 100)] + bcd_le_bytes(v / 100, (len - 1) as nat)
    }
}

/// Big-endian BCD encoding of `v` in exactly `len` bytes; digits above
/// `2 * len` are dropped.
pub open spec fn bcd_be_bytes(v: int, len: nat) -> Seq<u8>
    decreases len,
{
    if len == 0 {
        Seq::empty()
    } else {
        bcd_be_bytes(v / 100, (len - 1) as nat) + seq![bcd_byte_of(v % 100)]
    }
}

/// The byte a little-endian decode reports in its error: scanning runs from
/// the most-significant pair down, so it is the invalid byte of highest index.
pub open spec fn bcd_le_err_byte(s: Seq<u8>) -> u8
    decreases s.len(),
{
    if s.len() == 0 {
        0
    } else if !bcd_byte_valid(s.last()) {
        s.last()
    } else {
        bcd_le_err_byte(s.drop_last())
    }
}

/// The byte a big-endian decode reports in its error: scanning runs from the
/// front, so it is the invalid byte of lowest index.
pub open spec fn bcd_be_err_byte(s: Seq<u8>) -> u8
    decreases s.len(),
{
    if s.len() == 0 {
        0
    } else if !bcd_byte_valid(s[0]) {
        s[0]
    } else {
        bcd_be_err_byte(s.skip(1))
    }
}

/// Decode a single BCD byte into its two-digit value (0-99).
pub fn decode_bcd_byte(byte: u8) -> (r: Result<u8, CivError>)
    ensures
        bcd_byte_valid(byte) ==> r == Ok::<u8, CivError>(bcd_pair(byte) as u8),
        !bcd_byte_valid(byte) ==> r == Err::<u8, CivError>(CivError::InvalidBcd(byte)),
{
    let high = byte >> 4;
    let low = byte & 0x0F;
    assert(byte >> 4 <= 15 && byte & 0x0F <= 15) by (bit_vector);
    if high > 9 || low > 9 {
        return Err(CivError::InvalidBcd(byte));
    }
    Ok(high * 10 + low)
}

/// Encode a two-digit value (0-99) into a single BCD byte.
pub fn encode_bcd_byte(value: u8) -> (r: Result<u8, CivError>)
    ensures
        value <= 99 ==> r == Ok::<u8, CivError>(bcd_byte_of(value as int)),
        value > 99 ==> r == Err::<u8, CivError>(CivError::InvalidBcd(value)),
{
    if value > 99 {
        return Err(CivError::InvalidBcd(value));
    }
    let b = (value / 10) << 4 | (value % 10);
    assert(value <= 99 ==> ((value / 10) << 4 | (value % 10)) == (16 * ((value as int) / 10)
        + (value as int) % 10) as u8) by (bit_vector);
    Ok(b)
}

/// A BCD byte built from a two-digit value is valid and stores that value.
pub proof fn lemma_bcd_byte_of_pair(v: int)
    requires
        0 <= v <= 99,
    ensures
        bcd_byte_valid(bcd_byte_of(v)),
        bcd_pair(bcd_byte_of(v)) == v,
{
    let q = (v / 10) as u8;
    let r = (v % 10) as u8;
    assert(q <= 9 && r <= 9);
    let b = bcd_byte_of(v);
    assert(b == (16 * q + r) as u8);
    assert(q <= 9 && r <= 9 ==> ((16 * q + r) as u8 >> 4) == q && ((16 * q + r) as u8 & 0x0F)
        == r) by (bit_vector);
    assert(b >> 4 == q && (b & 0x0F) == r);
}

/// Both nibbles decimal: decoding then re-encoding gives the byte back.
/// A nibble above 9 makes the byte invalid. (The byte-level BCD law.)
pub proof fn lemma_bcd_byte_round_trip(b: u8)
    ensures
        bcd_byte_valid(b) ==> 0 <= bcd_pair(b) <= 99 && bcd_byte_of(bcd_pair(b)) == b,
{
    if bcd_byte_valid(b) {
        assert(((b >> 4) <= 9 && (b & 0x0F) <= 9) ==> ((b >> 4) * 10 + (b & 0x0F)) <= 99
            && 16 * (((b >> 4) * 10 + (b & 0x0F)) / 10) + ((b >> 4) * 10 + (b & 0x0F)) % 10
            == b) by (bit_vector);
    }
}

pub proof fn lemma_pow100_pos(n: nat)
    ensures
        pow100(n) >= 1,
    decreases n,
{
    if n > 0 {
        lemma_pow100_pos((n - 1) as nat);
    }
}

pub proof fn lemma_pow100_le(a: nat, b: nat)
    requires
        a <= b,
    ensures
        pow100(a) <= pow100(b),
    decreases b,
{
    if a < b {
        lemma_pow100_le(a, (b - 1) as nat);
        lemma_pow100_pos((b - 1) as nat);
    }
}

/// A valid BCD sequence of `n` bytes holds a value below `100^n`.
pub proof fn lemma_bcd_le_val_bound(s: Seq<u8>)
    requires
        bcd_seq_valid(s),
    ensures
        0 <= bcd_le_val(s) < pow100(s.len()),
    decreases s.len(),
{
    if s.len() == 0 {
    } else {
        assert(bcd_seq_valid(s.skip(1)));
        lemma_bcd_le_val_bound(s.skip(1));
        assert(bcd_byte_valid(s[0]));
        lemma_bcd_byte_round_trip(s[0]);
    }
}

pub proof fn lemma_bcd_be_val_bound(s: Seq<u8>)
    requires
        bcd_seq_valid(s),
    ensures
        0 <= bcd_be_val(s) < pow100(s.len()),
    decreases s.len(),
{
    if s.len() == 0 {
    } else {
        assert(bcd_seq_valid(s.drop_last()));
        lemma_bcd_be_val_bound(s.drop_last());
        assert(bcd_byte_valid(s.last()));
        lemma_bcd_byte_round_trip(s.last());
    }
}

/// When `s[i]` is invalid and everything after it is valid, the little-endian
/// decode (which scans from the end) reports `s[i]`.
proof fn lemma_bcd_le_err_byte_at(s: Seq<u8>, i: int)
    requires
        0 <= i < s.len(),
        !bcd_byte_valid(s[i]),
        forall|j: int| i < j < s.len() ==> bcd_byte_valid(#[trigger] s[j]),
    ensures
        bcd_le_err_byte(s) == s[i],
    decreases s.len(),
{
    if i == s.len() - 1 {
    } else {
        assert(bcd_byte_valid(s.last()));
        lemma_bcd_le_err_byte_at(s.drop_last(), i);
    }
}

/// When `s[i]` is invalid and everything before it is valid, the big-endian
/// decode (which scans from the front) reports `s[i]`.
proof fn lemma_bcd_be_err_byte_at(s: Seq<u8>, i: int)
    requires
        0 <= i < s.len(),
        !bcd_byte_valid(s[i]),
        forall|j: int| 0 <= j < i ==> bcd_byte_valid(#[trigger] s[j]),
    ensures
        bcd_be_err_byte(s) == s[i],
    decreases s.len(),
{
    if i == 0 {
    } else {
        assert(bcd_byte_valid(s[0]));
        lemma_bcd_be_err_byte_at(s.skip(1), i - 1);
        assert(s.skip(1)[i - 1] == s[i]);
    }
}

/// Decode a little-endian BCD byte slice into a `u64`.
///
/// The least-significant digit pair comes first: `[0x00, 0x50, 0x14]`
/// decodes to 145000.
pub fn decode_bcd_le(bytes: &[u8]) -> (r: Result<u64, CivError>)
    requires
        bytes@.len() <= 9,
    ensures
        bcd_seq_valid(bytes@) ==> r == Ok::<u64, CivError>(bcd_le_val(bytes@) as u64)
            && bcd_le_val(bytes@) <= u64::MAX,
        !bcd_seq_valid(bytes@) ==> r == Err::<u64, CivError>(
            CivError::InvalidBcd(bcd_le_err_byte(bytes@)),
        ),
{
    let n = bytes.len();
    let mut result: u64 = 0;
    let mut i: usize = n;
    while i > 0
        invariant
            i <= n,
            n == bytes@.len() <= 9,
            forall|j: int| i <= j < n ==> bcd_byte_valid(#[trigger] bytes@[j]),
            result == bcd_le_val(bytes@.subrange(i as int, n as int)),
            0 <= result < pow100((n - i) as nat),
        decreases i,
    {
        i = i - 1;
        let b = bytes[i];
        let d = match decode_bcd_byte(b) {
            Ok(d) => d,
            Err(e) => {
                proof {
                    lemma_bcd_le_err_byte_at(bytes@, i as int);
                }
                return Err(e);
            },
        };
        proof {
            lemma_bcd_byte_round_trip(b);
            lemma_pow100_le((n - i - 1) as nat, 8);
            lemma_pow100_concrete();
            assert(bytes@.subrange(i as int, n as int).skip(1) =~= bytes@.subrange(
                i + 1 as int,
                n as int,
            ));
        }
        result = result * 100 + (d as u64);
    }
    proof {
        assert(bytes@.subrange(0, n as int) =~= bytes@);
    }
    Ok(result)
}

/// Decode a big-endian BCD byte slice into a `u64`.
///
/// The most-significant digit pair comes first: `[0x01, 0x28]` decodes
/// to 128.
pub fn decode_bcd_be(bytes: &[u8]) -> (r: Result<u64, CivError>)
    requires
        bytes@.len() <= 9,
    ensures
        bcd_seq_valid(bytes@) ==> r == Ok::<u64, CivError>(bcd_be_val(bytes@) as u64)
            && bcd_be_val(bytes@) <= u64::MAX,
        !bcd_seq_valid(bytes@) ==> r == Err::<u64, CivError>(
            CivError::InvalidBcd(bcd_be_err_byte(bytes@)),
        ),
{
    let n = bytes.len();
    let mut result: u64 = 0;
    let mut i: usize = 0;
    while i < n
        invariant
            i <= n,
            n == bytes@.len() <= 9,
            forall|j: int| 0 <= j < i ==> bcd_byte_valid(#[trigger] bytes@[j]),
            result == bcd_be_val(bytes@.subrange(0, i as int)),
            0 <= result < pow100(i as nat),
        decreases n - i,
    {
        let b = bytes[i];
        let d = match decode_bcd_byte(b) {
            Ok(d) => d,
            Err(e) => {
                proof {
                    lemma_bcd_be_err_byte_at(bytes@, i as int);
                }
                return Err(e);
            },
        };
        proof {
            lemma_bcd_byte_round_trip(b);
            lemma_pow100_le(i as nat, 8);
            lemma_pow100_concrete();
            assert(bytes@.subrange(0, i + 1 as int).drop_last() =~= bytes@.subrange(0, i as int));
            assert(bytes@.subrange(0, i + 1 as int).last() == bytes@[i as int]);
        }
        result = result * 100 + (d as u64);
        i = i + 1;
    }
    proof {
        assert(bytes@.subrange(0, n as int) =~= bytes@);
    }
    Ok(result)
}

proof fn lemma_pow100_concrete()
    ensures
        pow100(9) == 0x0DE0_B6B3_A764_0000,
{
    reveal_with_fuel(pow100, 10);
}

/// Unfolding a little-endian encoding at its most-significant end.
proof fn lemma_bcd_le_bytes_snoc(v: int, n: nat)
    requires
        0 <= v,
    ensures
        bcd_le_bytes(v, n + 1) == bcd_le_bytes(v, n) + seq![bcd_byte_of((v / pow100(n)) % 100)],
    decreases n,
{
    if n == 0 {
        assert(v / pow100(0) == v);
        assert(bcd_le_bytes(v / 100, 0) =~= Seq::empty());
        assert(bcd_le_bytes(v, 0) =~= Seq::empty());
        assert(bcd_le_bytes(v, 1) =~= bcd_le_bytes(v, 0) + seq![bcd_byte_of(v % 100)]);
    } else {
        lemma_bcd_le_bytes_snoc(v / 100, (n - 1) as nat);
        lemma_pow100_pos((n - 1) as nat);
        vstd::arithmetic::div_mod::lemma_div_denominator(v, 100, pow100((n - 1) as nat));
        assert((v / 100) / pow100((n - 1) as nat) == v / pow100(n));
        assert(bcd_le_bytes(v, n + 1) =~= bcd_le_bytes(v, n) + seq![
            bcd_byte_of((v / pow100(n)) % 100),
        ]);
    }
}

/// Unfolding a big-endian encoding at its most-significant end.
proof fn lemma_bcd_be_bytes_cons(v: int, n: nat)
    requires
        0 <= v,
    ensures
        bcd_be_bytes(v, n + 1) == seq![bcd_byte_of((v / pow100(n)) % 100)] + bcd_be_bytes(v, n),
    decreases n,
{
    if n == 0 {
        assert(v / pow100(0) == v);
        assert(bcd_be_bytes(v / 100, 0) =~= Seq::empty());
        assert(bcd_be_bytes(v, 0) =~= Seq::empty());
        assert(bcd_be_bytes(v, 1) =~= seq![bcd_byte_of(v % 100)] + bcd_be_bytes(v, 0));
    } else {
        lemma_bcd_be_bytes_cons(v / 100, (n - 1) as nat);
        lemma_pow100_pos((n - 1) as nat);
        vstd::arithmetic::div_mod::lemma_div_denominator(v, 100, pow100((n - 1) as nat));
        assert((v / 100) / pow100((n - 1) as nat) == v / pow100(n));
        assert(bcd_be_bytes(v, n + 1) =~= seq![bcd_byte_of((v / pow100(n)) % 100)] + bcd_be_bytes(
            v,
            n,
        ));
    }
}

/// Encode a `u64` into little-endian BCD, filling exactly `len` bytes.
/// Digit pairs beyond `len` bytes are dropped, so encoding always succeeds.
pub fn encode_bcd_le(value: u64, len: usize) -> (r: Result<Vec<u8>, CivError>)
    ensures
        r matches Ok(v) && v@ == bcd_le_bytes(value as int, len as nat),
{
    let mut result: Vec<u8> = Vec::new();
    let mut remaining = value;
    let mut i: usize = 0;
    while i < len
        invariant
            i <= len,
            result@ == bcd_le_bytes(value as int, i as nat),
            remaining == (value as int) / pow100(i as nat),
        decreases len - i,
    {
        let pair = (remaining % 100) as u8;
        let b = match encode_bcd_byte(pair) {
            Ok(b) => b,
            Err(e) => {
                return Err(e);
            },
        };
        result.push(b);
        proof {
            lemma_bcd_le_bytes_snoc(value as int, i as nat);
            assert(bcd_le_bytes(value as int, i as nat).push(b) =~= bcd_le_bytes(
                value as int,
                i as nat,
            ) + seq![b]);
            lemma_pow100_pos(i as nat);
            vstd::arithmetic::div_mod::lemma_div_denominator(value as int, pow100(i as nat), 100);
        }
        remaining = remaining / 100;
        i = i + 1;
    }
    Ok(result)
}

/// Encode a `u64` into big-endian BCD, filling exactly `len` bytes.
/// Digit pairs beyond `len` bytes are dropped, so encoding always succeeds.
pub fn encode_bcd_be(value: u64, len: usize) -> (r: Result<Vec<u8>, CivError>)
    ensures
        r matches Ok(v) && v@ == bcd_be_bytes(value as int, len as nat),
{
    let mut result: Vec<u8> = Vec::new();
    let mut k: usize = 0;
    while k < len
        invariant
            k <= len,
            result@.len() == k,
        decreases len - k,
    {
        result.push(0u8);
        k = k + 1;
    }
    let mut remaining = value;
    let mut i: usize = len;
    while i > 0
        invariant
            i <= len,
            result@.len() == len,
            result@.subrange(i as int, len as int) == bcd_be_bytes(
                value as int,
                (len - i) as nat,
            ),
            remaining == (value as int) / pow100((len - i) as nat),
        decreases i,
    {
        i = i - 1;
        let pair = (remaining % 100) as u8;
        let b = match encode_bcd_byte(pair) {
            Ok(b) => b,
            Err(e) => {
                return Err(e);
            },
        };
        result.set(i, b);
        proof {
            lemma_bcd_be_bytes_cons(value as int, (len - i - 1) as nat);
            assert(result@.subrange(i as int, len as int) =~= seq![b] + result@.subrange(
                i + 1,
                len as int,
            ));
            lemma_pow100_pos((len - i - 1) as nat);
            vstd::arithmetic::div_mod::lemma_div_denominator(
                value as int,
                pow100((len - i - 1) as nat),
                100,
            );
        }
        remaining = remaining / 100;
    }
    proof {
        assert(result@.subrange(0, len as int) =~= result@);
    }
    Ok(result)
}

/// Every byte an encoder emits is a valid BCD byte.
pub proof fn lemma_bcd_le_bytes_valid(v: int, len: nat)
    ensures
        bcd_le_bytes(v, len).len() == len,
        bcd_seq_valid(bcd_le_bytes(v, len)),
    decreases len,
{
    if len > 0 {
        lemma_bcd_le_bytes_valid(v / 100, (len - 1) as nat);
        lemma_bcd_byte_of_pair(v % 100);
        assert forall|i: int| 0 <= i < len implies bcd_byte_valid(
            #[trigger] bcd_le_bytes(v, len)[i],
        ) by {
            if i > 0 {
                assert(bcd_le_bytes(v, len)[i] == bcd_le_bytes(v / 100, (len - 1) as nat)[i - 1]);
            }
        }
    }
}

pub proof fn lemma_bcd_be_bytes_valid(v: int, len: nat)
    ensures
        bcd_be_bytes(v, len).len() == len,
        bcd_seq_valid(bcd_be_bytes(v, len)),
    decreases len,
{
    if len > 0 {
        lemma_bcd_be_bytes_valid(v / 100, (len - 1) as nat);
        lemma_bcd_byte_of_pair(v % 100);
        assert forall|i: int| 0 <= i < len implies bcd_byte_valid(
            #[trigger] bcd_be_bytes(v, len)[i],
        ) by {
            if i < len - 1 {
                assert(bcd_be_bytes(v, len)[i] == bcd_be_bytes(v / 100, (len - 1) as nat)[i]);
            }
        }
    }
}

/// Little-endian round trip: a value below `100^len` encoded in `len` bytes
/// decodes back to itself.
pub proof fn lemma_bcd_le_round_trip(v: int, len: nat)
    requires
        0 <= v < pow100(len),
    ensures
        bcd_le_val(bcd_le_bytes(v, len)) == v,
    decreases len,
{
    if len == 0 {
        assert(v == 0);
    } else {
        lemma_pow100_pos((len - 1) as nat);
        assert(v / 100 < pow100((len - 1) as nat)) by {
            if v / 100 >= pow100((len - 1) as nat) {
                assert(v >= 100 * (v / 100));
                assert(100 * (v / 100) >= 100 * pow100((len - 1) as nat)) by (nonlinear_arith)
                    requires
                        v / 100 >= pow100((len - 1) as nat),
                ;
            }
        }
        lemma_bcd_le_round_trip(v / 100, (len - 1) as nat);
        lemma_bcd_byte_of_pair(v % 100);
        let s = bcd_le_bytes(v, len);
        assert(s.skip(1) =~= bcd_le_bytes(v / 100, (len - 1) as nat));
        assert(s[0] == bcd_byte_of(v % 100));
    }
}

/// Big-endian round trip.
pub proof fn lemma_bcd_be_round_trip(v: int, len: nat)
    requires
        0 <= v < pow100(len),
    ensures
        bcd_be_val(bcd_be_bytes(v, len)) == v,
    decreases len,
{
    if len == 0 {
        assert(v == 0);
    } else {
        lemma_pow100_pos((len - 1) as nat);
        assert(v / 100 < pow100((len - 1) as nat)) by {
            if v / 100 >= pow100((len - 1) as nat) {
                assert(v >= 100 * (v / 100));
                assert(100 * (v / 100) >= 100 * pow100((len - 1) as nat)) by (nonlinear_arith)
                    requires
                        v / 100 >= pow100((len - 1) as nat),
                ;
            }
        }
        lemma_bcd_be_round_trip(v / 100, (len - 1) as nat);
        lemma_bcd_byte_of_pair(v % 100);
        let s = bcd_be_bytes(v, len);
        assert(s.drop_last() =~= bcd_be_bytes(v / 100, (len - 1) as nat));
        assert(s.last() == bcd_byte_of(v % 100));
    }
}

} // verus!
