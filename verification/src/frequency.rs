//! A bounded frequency value and its wire encoding.

use vstd::prelude::*;

use crate::bcd;
use crate::error::CivError;

verus! {

/// Largest encodable frequency: 10 decimal digits of Hz.
pub const MAX_FREQUENCY_HZ: u64 = 9_999_999_999;

/// A radio frequency stored as Hz.
///
/// The wire format encodes frequencies as 5 BCD bytes in little-endian
/// order, giving 10 decimal digits with 1 Hz resolution. Every constructor
/// establishes `wf`.
#[derive(Debug, Clone, Copy, PartialEq, Eq, Structural, PartialOrd, Ord, Hash)]
pub struct Frequency(pub u64);

/// `pow100(5)` is the count of 10-digit values, one above the bound.
pub proof fn lemma_pow100_5()
    ensures
        bcd::pow100(5) == 10_000_000_000,
{
    reveal_with_fuel(bcd::pow100, 6);
}

impl Frequency {
    /// The bound every constructor establishes and every method may assume.
    pub open spec fn wf(self) -> bool {
        self.0 <= MAX_FREQUENCY_HZ
    }

    /// Create a `Frequency` from a value in Hz; fails above the 10-digit
    /// bound, and only there.
    pub fn from_hz(hz: u64) -> (r: Result<Self, CivError>)
        ensures
            hz <= MAX_FREQUENCY_HZ ==> r == Ok::<Frequency, CivError>(Frequency(hz)),
            hz > MAX_FREQUENCY_HZ ==> r == Err::<Frequency, CivError>(
                CivError::FrequencyOutOfRange(hz),
            ),
    {
        if hz > MAX_FREQUENCY_HZ {
            return Err(CivError::FrequencyOutOfRange(hz));
        }
        Ok(Frequency(hz))
    }

    /// The frequency in Hz.
    pub fn hz(self) -> (r: u64)
        ensures
            r == self.0,
    {
        self.0
    }

    /// Decode a frequency from 5 wire BCD bytes (little-endian, 1 Hz
    /// resolution). Succeeds exactly when every nibble is a decimal digit.
    pub fn from_civ_bytes(bytes: [u8; 5]) -> (r: Result<Self, CivError>)
        ensures
            bcd::bcd_seq_valid(bytes@) ==> r == Ok::<Frequency, CivError>(
                Frequency(bcd::bcd_le_val(bytes@) as u64),
            ) && bcd::bcd_le_val(bytes@) <= MAX_FREQUENCY_HZ,
            !bcd::bcd_seq_valid(bytes@) ==> r == Err::<Frequency, CivError>(
                CivError::InvalidBcd(bcd::bcd_le_err_byte(bytes@)),
            ),
    {
        let hz = match bcd::decode_bcd_le(bytes.as_slice()) {
            Ok(v) => v,
            Err(e) => {
                return Err(e);
            },
        };
        proof {
            if bcd::bcd_seq_valid(bytes@) {
                bcd::lemma_bcd_le_val_bound(bytes@);
                lemma_pow100_5();
            }
        }
        Self::from_hz(hz)
    }

    /// Encode the frequency to its 5 wire BCD bytes.
    pub fn to_civ_bytes(self) -> (r: Result<[u8; 5], CivError>)
        ensures
            r matches Ok(b) && b@ == bcd::bcd_le_bytes(self.0 as int, 5),
    {
        let v = match bcd::encode_bcd_le(self.0, 5) {
            Ok(v) => v,
            Err(e) => {
                return Err(e);
            },
        };
        proof {
            bcd::lemma_bcd_le_bytes_valid(self.0 as int, 5);
        }
        let arr = [v[0], v[1], v[2], v[3], v[4]];
        assert(arr@ =~= v@);
        Ok(arr)
    }
}

/// The character of one decimal digit.
pub open spec fn digit_char(d: int) -> char {
    if d == 0 {
        '0'
    } else if d == 1 {
        '1'
    } else if d == 2 {
        '2'
    } else if d == 3 {
        '3'
    } else if d == 4 {
        '4'
    } else if d == 5 {
        '5'
    } else if d == 6 {
        '6'
    } else if d == 7 {
        '7'
    } else if d == 8 {
        '8'
    } else {
        '9'
    }
}

/// The decimal digits of `v`, most significant first, without leading
/// zeros (a single zero for zero).
pub open spec fn dec_chars(v: int) -> Seq<char>
    decreases v,
{
    if v < 10 {
        seq![digit_char(v)]
    } else {
        dec_chars(v / 10) + seq![digit_char(v % 10)]
    }
}

/// A three-digit zero-padded group.
pub open spec fn pad3_chars(v: int) -> Seq<char> {
    seq![digit_char(v / 100), digit_char((v / 10) % 10), digit_char(v % 10)]
}

/// The display form of a frequency in Hz: megahertz, then the kilohertz
/// and hertz groups zero-padded to three digits, dot-separated, with the
/// unit.
pub open spec fn freq_display_chars(hz: int) -> Seq<char> {
    dec_chars(hz / 1_000_000) + seq!['.'] + pad3_chars((hz % 1_000_000) / 1_000) + seq!['.']
        + pad3_chars(hz % 1_000) + seq![' ', 'M', 'H', 'z']
}

/// The one-character string of a decimal digit (0-9).
fn digit_str(d: u64) -> (r: &'static str)
    requires
        d <= 9,
    ensures
        r@ == seq![digit_char(d as int)],
{
    proof {
        reveal_strlit("0");
        reveal_strlit("1");
        reveal_strlit("2");
        reveal_strlit("3");
        reveal_strlit("4");
        reveal_strlit("5");
        reveal_strlit("6");
        reveal_strlit("7");
        reveal_strlit("8");
        reveal_strlit("9");
    }
    let r = if d == 0 {
        "0"
    } else if d == 1 {
        "1"
    } else if d == 2 {
        "2"
    } else if d == 3 {
        "3"
    } else if d == 4 {
        "4"
    } else if d == 5 {
        "5"
    } else if d == 6 {
        "6"
    } else if d == 7 {
        "7"
    } else if d == 8 {
        "8"
    } else {
        "9"
    };
    proof {
        assert(r@ =~= seq![digit_char(d as int)]);
    }
    r
}

/// Append the decimal digits of `v`, most significant first.
fn push_decimal(s: &mut String, v: u64)
    ensures
        final(s)@ == old(s)@ + dec_chars(v as int),
    decreases v,
{
    if v < 10 {
        s.append(digit_str(v));
    } else {
        push_decimal(s, v / 10);
        s.append(digit_str(v % 10));
        proof {
            assert(old(s)@ + dec_chars((v / 10) as int) + seq![digit_char((v % 10) as int)]
                =~= old(s)@ + dec_chars(v as int));
        }
    }
}

/// Append a three-digit zero-padded group.
fn push_pad3(s: &mut String, v: u64)
    requires
        v <= 999,
    ensures
        final(s)@ == old(s)@ + pad3_chars(v as int),
{
    s.append(digit_str(v / 100));
    s.append(digit_str((v / 10) % 10));
    s.append(digit_str(v % 10));
    proof {
        assert(old(s)@ + seq![digit_char((v / 100) as int)] + seq![
            digit_char(((v / 10) % 10) as int),
        ] + seq![digit_char((v % 10) as int)] =~= old(s)@ + pad3_chars(v as int));
    }
}

impl Frequency {
    /// The display form: megahertz, kilohertz and hertz groups
    /// dot-separated, the lower groups zero-padded to three digits.
    pub fn display(self) -> (r: String)
        ensures
            r@ == freq_display_chars(self.0 as int),
    {
        let mut s = String::new();
        push_decimal(&mut s, self.0 / 1_000_000);
        s.append(".");
        push_pad3(&mut s, (self.0 % 1_000_000) / 1_000);
        s.append(".");
        push_pad3(&mut s, self.0 % 1_000);
        s.append(" MHz");
        proof {
            reveal_strlit(".");
            reveal_strlit(" MHz");
            assert(" MHz"@ =~= seq![' ', 'M', 'H', 'z']);
            assert("."@ =~= seq!['.']);
            assert(s@ =~= freq_display_chars(self.0 as int));
        }
        s
    }
}

/// Frequency round trip: encoding any frequency within the 10-digit bound
/// to its 5 wire bytes and decoding them gives the same value back.
pub proof fn lemma_frequency_round_trip(v: u64)
    requires
        v <= MAX_FREQUENCY_HZ,
    ensures
        bcd::bcd_seq_valid(bcd::bcd_le_bytes(v as int, 5)),
        bcd::bcd_le_val(bcd::bcd_le_bytes(v as int, 5)) == v,
{
    lemma_pow100_5();
    bcd::lemma_bcd_le_bytes_valid(v as int, 5);
    bcd::lemma_bcd_le_round_trip(v as int, 5);
}

} // verus!
