//! The variable-length unsigned 32-bit integer codec used by the plaintext
//! transport. Five length classes are keyed by the leading byte: values up
//! to 240 take one byte; leading bytes 241-248, 249, 250 and 251 introduce
//! two-, three-, four- and five-byte encodings; 252-255 are invalid.

use vstd::arithmetic::div_mod::{lemma_div_denominator, lemma_fundamental_div_mod};
use vstd::prelude::*;

use crate::connection::error::ConnectionError;

verus! {

/// Number of bytes in the varint encoding of `v`.
pub open spec fn varu32_len(v: u32) -> nat {
    if v <= 240 {
        1nat
    } else if v <= 2287 {
        2nat
    } else if v <= 67823 {
        3nat
    } else if v <= 16777215 {
        4nat
    } else {
        5nat
    }
}

/// The varint byte sequence for `v`.
pub open spec fn varu32_bytes(v: u32) -> Seq<u8> {
    if v <= 240 {
        seq![v as u8]
    } else if v <= 2287 {
        let off = v - 240;
        seq![(241 + off / 256) as u8, (off % 256) as u8]
    } else if v <= 67823 {
        let off = v - 2288;
        seq![249u8, (off / 256) as u8, (off % 256) as u8]
    } else if v <= 16777215 {
        let off = v - 67824;
        seq![250u8, (off / 65536) as u8, ((off / 256) % 256) as u8, (off % 256) as u8]
    } else {
        let off = v - 16777216;
        seq![
            251u8,
            (off / 16777216) as u8,
            ((off / 65536) % 256) as u8,
            ((off / 256) % 256) as u8,
            (off % 256) as u8,
        ]
    }
}

/// What decoding finds at the front of a byte sequence.
pub enum VaruDecoded {
    /// A value together with the number of bytes it occupied.
    Value { v: u32, n: nat },
    /// The leading byte was one of the reserved bytes 252-255.
    InvalidFirstByte(u8),
    /// A five-byte encoding denoted a value above the 32-bit range.
    Overflow,
    /// The sequence ends before the encoding does.
    Incomplete,
}

/// Decode the varint at the front of `s`.
pub open spec fn varu32_decode(s: Seq<u8>) -> VaruDecoded {
    if s.len() == 0 {
        VaruDecoded::Incomplete
    } else {
        let b0 = s[0];
        if b0 <= 240 {
            VaruDecoded::Value { v: b0 as u32, n: 1nat }
        } else if b0 <= 248 {
            if s.len() < 2 {
                VaruDecoded::Incomplete
            } else {
                VaruDecoded::Value {
                    v: (240 + (b0 - 241) * 256 + s[1]) as u32,
                    n: 2nat,
                }
            }
        } else if b0 == 249 {
            if s.len() < 3 {
                VaruDecoded::Incomplete
            } else {
                VaruDecoded::Value { v: (2288 + s[1] * 256 + s[2]) as u32, n: 3nat }
            }
        } else if b0 == 250 {
            if s.len() < 4 {
                VaruDecoded::Incomplete
            } else {
                VaruDecoded::Value {
                    v: (67824 + s[1] * 65536 + s[2] * 256 + s[3]) as u32,
                    n: 4nat,
                }
            }
        } else if b0 == 251 {
            if s.len() < 5 {
                VaruDecoded::Incomplete
            } else {
                let total = 16777216 + (s[1] as int) * 16777216 + (s[2] as int) * 65536 + (
                s[3] as int) * 256 + (s[4] as int);
                if total <= 0xFFFF_FFFF {
                    VaruDecoded::Value { v: total as u32, n: 5nat }
                } else {
                    VaruDecoded::Overflow
                }
            }
        } else {
            VaruDecoded::InvalidFirstByte(b0)
        }
    }
}

/// Encode `value` as a varint, always in the minimal length class.
pub fn varu32_to_bytes(value: u32) -> (r: Vec<u8>)
    ensures
        r@ == varu32_bytes(value),
        r@.len() == varu32_len(value),
{
    let mut bytes: Vec<u8> = Vec::new();
    if value <= 240 {
        bytes.push(value as u8);
    } else if value <= 2287 {
        let off: u32 = value - 240;
        bytes.push((241 + off / 256) as u8);
        bytes.push((off % 256) as u8);
    } else if value <= 67823 {
        let off: u32 = value - 2288;
        bytes.push(249);
        bytes.push((off / 256) as u8);
        bytes.push((off % 256) as u8);
    } else if value <= 16777215 {
        let off: u32 = value - 67824;
        bytes.push(250);
        bytes.push((off / 65536) as u8);
        bytes.push(((off / 256) % 256) as u8);
        bytes.push((off % 256) as u8);
    } else {
        let off: u32 = value - 16777216;
        bytes.push(251);
        bytes.push((off / 16777216) as u8);
        bytes.push(((off / 65536) % 256) as u8);
        bytes.push(((off / 256) % 256) as u8);
        bytes.push((off % 256) as u8);
    }
    proof {
        assert(bytes@ =~= varu32_bytes(value));
    }
    bytes
}

/// Decode the varint that starts at `pos` in `buf`. On success the returned
/// pair holds the value and the position of the first byte after it.
pub fn varu32_from_bytes(buf: &Vec<u8>, pos: usize) -> (r: Result<(u32, usize), ConnectionError>)
    requires
        pos <= buf@.len(),
    ensures
        (match varu32_decode(buf@.skip(pos as int)) {
            VaruDecoded::Value { v, n } => r == Ok::<(u32, usize), ConnectionError>(
                (v, (pos + n) as usize),
            ),
            VaruDecoded::InvalidFirstByte(b) => r == Err::<(u32, usize), ConnectionError>(
                ConnectionError::InvalidVarintFirstByte(b),
            ),
            VaruDecoded::Overflow => r == Err::<(u32, usize), ConnectionError>(
                ConnectionError::VarintOverflow,
            ),
            VaruDecoded::Incomplete => r == Err::<(u32, usize), ConnectionError>(
                ConnectionError::Incomplete,
            ),
        }),
        r is Ok ==> pos < r.unwrap().1 <= buf@.len(),
{
    let ghost s: Seq<u8> = buf@.skip(pos as int);
    if pos >= buf.len() {
        return Err(ConnectionError::Incomplete);
    }
    let b0: u8 = buf[pos];
    assert(b0 == s[0]);
    if b0 <= 240 {
        Ok((b0 as u32, pos + 1))
    } else if b0 <= 248 {
        if buf.len() - pos < 2 {
            return Err(ConnectionError::Incomplete);
        }
        let b1: u8 = buf[pos + 1];
        assert(b1 == s[1]);
        let v: u32 = 240 + ((b0 - 241) as u32) * 256 + b1 as u32;
        Ok((v, pos + 2))
    } else if b0 == 249 {
        if buf.len() - pos < 3 {
            return Err(ConnectionError::Incomplete);
        }
        let b1: u8 = buf[pos + 1];
        let b2: u8 = buf[pos + 2];
        assert(b1 == s[1] && b2 == s[2]);
        let v: u32 = 2288 + (b1 as u32) * 256 + b2 as u32;
        Ok((v, pos + 3))
    } else if b0 == 250 {
        if buf.len() - pos < 4 {
            return Err(ConnectionError::Incomplete);
        }
        let b1: u8 = buf[pos + 1];
        let b2: u8 = buf[pos + 2];
        let b3: u8 = buf[pos + 3];
        assert(b1 == s[1] && b2 == s[2] && b3 == s[3]);
        let v: u32 = 67824 + (b1 as u32) * 65536 + (b2 as u32) * 256 + b3 as u32;
        Ok((v, pos + 4))
    } else if b0 == 251 {
        if buf.len() - pos < 5 {
            return Err(ConnectionError::Incomplete);
        }
        let b1: u8 = buf[pos + 1];
        let b2: u8 = buf[pos + 2];
        let b3: u8 = buf[pos + 3];
        let b4: u8 = buf[pos + 4];
        assert(b1 == s[1] && b2 == s[2] && b3 == s[3] && b4 == s[4]);
        let total: u64 = 16777216u64 + (b1 as u64) * 16777216 + (b2 as u64) * 65536 + (b3 as u64)
            * 256 + b4 as u64;
        if total > 0xFFFF_FFFFu64 {
            return Err(ConnectionError::VarintOverflow);
        }
        Ok((total as u32, pos + 5))
    } else {
        Err(ConnectionError::InvalidVarintFirstByte(b0))
    }
}

/// Every value decodes back from its own encoding, whatever follows it, and
/// consumes exactly the bytes of its length class.
pub proof fn lemma_varu32_round_trip(v: u32, rest: Seq<u8>)
    ensures
        varu32_decode(varu32_bytes(v) + rest) == (VaruDecoded::Value { v, n: varu32_len(v) }),
{
    let s = varu32_bytes(v) + rest;
    if v <= 240 {
    } else if v <= 2287 {
        let off: int = v - 240;
        lemma_fundamental_div_mod(off, 256);
        assert(s[0] == (241 + off / 256) as u8);
        assert(0 <= off / 256 <= 7) by {
            lemma_div_bounds_small(off, 256, 7);
        }
    } else if v <= 67823 {
        let off: int = v - 2288;
        lemma_fundamental_div_mod(off, 256);
        assert(0 <= off / 256 <= 255) by {
            lemma_div_bounds_small(off, 256, 255);
        }
    } else if v <= 16777215 {
        let off: int = v - 67824;
        lemma_fundamental_div_mod(off, 256);
        lemma_fundamental_div_mod(off / 256, 256);
        lemma_div_denominator(off, 256, 256);
        assert(0 <= off / 65536 <= 255) by {
            lemma_div_bounds_small(off, 65536, 255);
        }
    } else {
        let off: int = v - 16777216;
        lemma_fundamental_div_mod(off, 256);
        lemma_fundamental_div_mod(off / 256, 256);
        lemma_div_denominator(off, 256, 256);
        lemma_fundamental_div_mod(off / 65536, 256);
        lemma_div_denominator(off, 65536, 256);
        assert(0 <= off / 16777216 <= 254) by {
            lemma_div_bounds_small(off, 16777216, 254);
        }
    }
}

/// For nonnegative `x` below `(bound + 1) * d`, the quotient `x / d` lies
/// between 0 and `bound`.
proof fn lemma_div_bounds_small(x: int, d: int, bound: int)
    requires
        0 < d,
        0 <= x,
        0 <= bound,
        x < (bound + 1) * d,
    ensures
        0 <= x / d <= bound,
{
    vstd::arithmetic::div_mod::lemma_div_pos_is_pos(x, d);
    lemma_fundamental_div_mod(x, d);
    if x / d > bound {
        vstd::arithmetic::mul::lemma_mul_inequality(bound + 1, x / d, d);
        vstd::arithmetic::mul::lemma_mul_is_commutative(x / d, d);
        assert(false);
    }
}

} // verus!
