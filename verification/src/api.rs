//! Payload codec for the session-level messages the device session itself
//! builds and reads. Payloads use a little-endian base-128 varint for
//! integers and length-delimited fields for strings, with one tag byte per
//! field. An encoder emits one canonical form, omitting fields that hold
//! their default value; a decoder accepts any legal encoding of the fields
//! it reads, later occurrences winning, and skips fields it does not
//! define by their wire type.

use vstd::arithmetic::div_mod::lemma_fundamental_div_mod;
use vstd::prelude::*;
use vstd::utf8::encode_utf8;

use crate::connection::noise::utf8_lossy_of;

verus! {

/// The base-128 varint bytes of `v`: seven value bits per byte, low bits
/// first, the high bit marking continuation.
pub open spec fn leb_bytes(v: u32) -> Seq<u8>
    decreases v,
{
    if v < 128 {
        seq![v as u8]
    } else {
        seq![(128 + v % 128) as u8] + leb_bytes(v / 128)
    }
}

/// Decode a base-128 varint from the front of `s`: the (unbounded) value
/// and the number of bytes it occupied.
pub open spec fn spec_leb_decode(s: Seq<u8>) -> Option<(int, nat)>
    decreases s.len(),
{
    if s.len() == 0 {
        None
    } else if s[0] < 128 {
        Some((s[0] as int, 1nat))
    } else {
        match spec_leb_decode(s.skip(1)) {
            None => None,
            Some((v, n)) => Some((s[0] - 128 + 128 * v, (n + 1) as nat)),
        }
    }
}

/// A decoded varint is nonnegative and occupied between one byte and the
/// whole sequence.
pub proof fn lemma_leb_decode_bounds(s: Seq<u8>)
    ensures
        spec_leb_decode(s) matches Some((v, n)) ==> 0 <= v && 1 <= n <= s.len(),
    decreases s.len(),
{
    if s.len() != 0 && s[0] >= 128 {
        lemma_leb_decode_bounds(s.skip(1));
    }
}

/// Encode `value` as a base-128 varint.
pub fn leb_encode(value: u32) -> (r: Vec<u8>)
    ensures
        r@ == leb_bytes(value),
{
    let mut out: Vec<u8> = Vec::new();
    let mut v: u32 = value;
    while v >= 128
        invariant
            leb_bytes(value) == out@ + leb_bytes(v),
        decreases v,
    {
        let ghost v0: u32 = v;
        out.push((128 + v % 128) as u8);
        v = v / 128;
        proof {
            assert(leb_bytes(v0) == seq![(128 + v0 % 128) as u8] + leb_bytes(v0 / 128));
            assert(leb_bytes(value) =~= out@ + leb_bytes(v));
        }
    }
    out.push(v as u8);
    proof {
        assert(leb_bytes(value) =~= out@);
    }
    out
}

/// Decode the base-128 varint starting at `pos` in `buf`. `None` stands
/// both for malformed bytes and for a value outside the 32-bit range.
pub fn leb_decode_at(buf: &Vec<u8>, pos: usize) -> (r: Option<(u32, usize)>)
    requires
        pos <= buf@.len(),
    ensures
        (match spec_leb_decode(buf@.skip(pos as int)) {
            None => r is None,
            Some((v, n)) => {
                if v <= 0xFFFF_FFFF {
                    r == Some::<(u32, usize)>((v as u32, (pos + n) as usize))
                } else {
                    r is None
                }
            },
        }),
        r matches Some((v, n)) ==> pos < n <= buf@.len(),
    decreases buf@.len() - pos,
{
    if pos >= buf.len() {
        return None;
    }
    let b: u8 = buf[pos];
    if b < 128 {
        return Some((b as u32, pos + 1));
    }
    proof {
        assert(buf@.skip(pos as int).skip(1) =~= buf@.skip(pos as int + 1));
        lemma_leb_decode_bounds(buf@.skip(pos as int + 1));
    }
    match leb_decode_at(buf, pos + 1) {
        None => None,
        Some((v, n)) => {
            let total: u64 = (b - 128) as u64 + 128u64 * (v as u64);
            if total > 0xFFFF_FFFFu64 {
                return None;
            }
            Some((total as u32, n))
        },
    }
}

/// Every value decodes back from its own varint encoding, whatever bytes
/// follow it.
pub proof fn lemma_leb_round_trip(v: u32, rest: Seq<u8>)
    ensures
        spec_leb_decode(leb_bytes(v) + rest) == Some((v as int, leb_bytes(v).len())),
    decreases v,
{
    let s = leb_bytes(v) + rest;
    if v < 128 {
        assert(s[0] == v as u8);
    } else {
        lemma_leb_round_trip(v / 128, rest);
        assert(s.skip(1) =~= leb_bytes(v / 128) + rest);
        lemma_fundamental_div_mod(v as int, 128);
    }
}

/// A varint occupies between one and five bytes, its length fixed by the
/// value class.
pub proof fn lemma_leb_len(v: u32)
    ensures
        leb_bytes(v).len() == (if v < 128 {
            1int
        } else if v < 16384 {
            2int
        } else if v < 2097152 {
            3int
        } else if v < 268435456 {
            4int
        } else {
            5int
        }),
    decreases v,
{
    if v >= 128 {
        lemma_leb_len(v / 128);
        lemma_fundamental_div_mod(v as int, 128);
    }
}

/// A length-delimited field: its tag byte, the varint of the content
/// length, then the content; an empty content is omitted entirely.
pub open spec fn spec_string_field(tag: u8, content: Seq<u8>) -> Seq<u8> {
    if content.len() == 0 {
        Seq::empty()
    } else {
        seq![tag] + leb_bytes(content.len() as u32) + content
    }
}

/// A varint field: its tag byte then the value; a zero value is omitted.
pub open spec fn spec_u32_field(tag: u8, v: u32) -> Seq<u8> {
    if v == 0 {
        Seq::empty()
    } else {
        seq![tag] + leb_bytes(v)
    }
}

/// A boolean field: its tag byte then `1`; `false` is omitted.
pub open spec fn spec_bool_field(tag: u8, b: bool) -> Seq<u8> {
    if b {
        seq![tag, 1u8]
    } else {
        Seq::empty()
    }
}

/// Skip the base-128 varint at `pos`, reporting whether its value is
/// nonzero and where the next byte lies; unlike [`leb_decode_at`] this
/// accepts values beyond the 32-bit range, since a skipped field's value
/// is never materialized.
pub fn leb_skip(buf: &Vec<u8>, pos: usize) -> (r: Option<(bool, usize)>)
    requires
        pos <= buf@.len(),
    ensures
        (match spec_leb_decode(buf@.skip(pos as int)) {
            None => r is None,
            Some((v, n)) => r == Some::<(bool, usize)>(((v != 0), (pos + n) as usize)),
        }),
        r matches Some((_, n)) ==> pos < n <= buf@.len(),
    decreases buf@.len() - pos,
{
    if pos >= buf.len() {
        return None;
    }
    let b: u8 = buf[pos];
    if b < 128 {
        return Some((b != 0, pos + 1));
    }
    proof {
        assert(buf@.skip(pos as int).skip(1) =~= buf@.skip(pos as int + 1));
        lemma_leb_decode_bounds(buf@.skip(pos as int + 1));
    }
    match leb_skip(buf, pos + 1) {
        None => None,
        Some((nz, n)) => Some(((b % 128 != 0) || nz, n)),
    }
}

/// Scan a message of single-byte-tagged fields for the varint field with
/// tag byte `tag`: the last occurrence's value, or the inner `None` when
/// the field is absent; the outer `None` when the message is malformed.
/// Fields with other tags are skipped by their wire type (varint,
/// length-delimited, or four or eight fixed bytes); field numbers above
/// 15, the group wire types, and length fields beyond the 32-bit range
/// are malformed.
pub open spec fn spec_scan_varint(s: Seq<u8>, tag: u8) -> Option<Option<int>>
    decreases s.len(),
{
    if s.len() == 0 {
        Some(None)
    } else {
        let t = s[0];
        if t >= 128 {
            None
        } else if t % 8 == 0 {
            match spec_leb_decode(s.skip(1)) {
                None => None,
                Some((v, n)) => {
                    if 1 + n > s.len() {
                        None
                    } else {
                        match spec_scan_varint(s.skip((1 + n) as int), tag) {
                            None => None,
                            Some(rest) => {
                                if t == tag {
                                    Some(
                                        Some(
                                            match rest {
                                                Some(rv) => rv,
                                                None => v,
                                            },
                                        ),
                                    )
                                } else {
                                    Some(rest)
                                }
                            },
                        }
                    }
                },
            }
        } else if t % 8 == 2 {
            match spec_leb_decode(s.skip(1)) {
                None => None,
                Some((len, n)) => {
                    if len < 0 || len > 0xFFFF_FFFF || 1 + n + len > s.len() {
                        None
                    } else {
                        spec_scan_varint(s.skip(1 + n + len), tag)
                    }
                },
            }
        } else if t % 8 == 5 {
            if s.len() < 5 {
                None
            } else {
                spec_scan_varint(s.skip(5), tag)
            }
        } else if t % 8 == 1 {
            if s.len() < 9 {
                None
            } else {
                spec_scan_varint(s.skip(9), tag)
            }
        } else {
            None
        }
    }
}

/// Like [`spec_scan_varint`], for the length-delimited field with tag
/// byte `tag`: the last occurrence's content bytes.
pub open spec fn spec_scan_bytes(s: Seq<u8>, tag: u8) -> Option<Option<Seq<u8>>>
    decreases s.len(),
{
    if s.len() == 0 {
        Some(None)
    } else {
        let t = s[0];
        if t >= 128 {
            None
        } else if t % 8 == 0 {
            match spec_leb_decode(s.skip(1)) {
                None => None,
                Some((v, n)) => {
                    if 1 + n > s.len() {
                        None
                    } else {
                        spec_scan_bytes(s.skip((1 + n) as int), tag)
                    }
                },
            }
        } else if t % 8 == 2 {
            match spec_leb_decode(s.skip(1)) {
                None => None,
                Some((len, n)) => {
                    if len < 0 || len > 0xFFFF_FFFF || 1 + n + len > s.len() {
                        None
                    } else {
                        match spec_scan_bytes(s.skip(1 + n + len), tag) {
                            None => None,
                            Some(rest) => {
                                if t == tag {
                                    Some(
                                        Some(
                                            match rest {
                                                Some(rc) => rc,
                                                None => s.subrange((1 + n) as int, 1 + n + len),
                                            },
                                        ),
                                    )
                                } else {
                                    Some(rest)
                                }
                            },
                        }
                    }
                },
            }
        } else if t % 8 == 5 {
            if s.len() < 5 {
                None
            } else {
                spec_scan_bytes(s.skip(5), tag)
            }
        } else if t % 8 == 1 {
            if s.len() < 9 {
                None
            } else {
                spec_scan_bytes(s.skip(9), tag)
            }
        } else {
            None
        }
    }
}

/// Exec mirror of [`spec_scan_varint`], reduced to what the session reads
/// of a varint field: whether its last value is nonzero.
fn scan_varint_field(buf: &Vec<u8>, pos: usize, tag: u8) -> (r: Option<Option<bool>>)
    requires
        pos <= buf@.len(),
    ensures
        (match spec_scan_varint(buf@.skip(pos as int), tag) {
            None => r is None,
            Some(None) => r == Some(None::<bool>),
            Some(Some(v)) => r == Some(Some(v != 0)),
        }),
    decreases buf@.len() - pos,
{
    if pos >= buf.len() {
        return Some(None);
    }
    let b: u8 = buf[pos];
    if b >= 128 {
        return None;
    }
    let wt: u8 = b % 8;
    proof {
        assert(buf@.skip(pos as int).skip(1) =~= buf@.skip(pos as int + 1));
        lemma_leb_decode_bounds(buf@.skip(pos as int + 1));
    }
    if wt == 0 {
        let (nonzero, next): (bool, usize) = match leb_skip(buf, pos + 1) {
            Some(x) => x,
            None => {
                return None;
            },
        };
        proof {
            assert(buf@.skip(pos as int).skip(next - pos as int) =~= buf@.skip(next as int));
        }
        match scan_varint_field(buf, next, tag) {
            None => None,
            Some(rest) => {
                if b == tag {
                    Some(
                        Some(
                            match rest {
                                Some(rb) => rb,
                                None => nonzero,
                            },
                        ),
                    )
                } else {
                    Some(rest)
                }
            },
        }
    } else if wt == 2 {
        let (len, next): (u32, usize) = match leb_decode_at(buf, pos + 1) {
            Some(x) => x,
            None => {
                return None;
            },
        };
        if buf.len() - next < len as usize {
            return None;
        }
        let after: usize = next + len as usize;
        proof {
            assert(buf@.skip(pos as int).skip(after - pos as int) =~= buf@.skip(after as int));
        }
        scan_varint_field(buf, after, tag)
    } else if wt == 5 {
        if buf.len() - pos < 5 {
            return None;
        }
        proof {
            assert(buf@.skip(pos as int).skip(5) =~= buf@.skip(pos as int + 5));
        }
        scan_varint_field(buf, pos + 5, tag)
    } else if wt == 1 {
        if buf.len() - pos < 9 {
            return None;
        }
        proof {
            assert(buf@.skip(pos as int).skip(9) =~= buf@.skip(pos as int + 9));
        }
        scan_varint_field(buf, pos + 9, tag)
    } else {
        None
    }
}

/// Exec mirror of [`spec_scan_bytes`].
fn scan_bytes_field(buf: &Vec<u8>, pos: usize, tag: u8) -> (r: Option<Option<Vec<u8>>>)
    requires
        pos <= buf@.len(),
    ensures
        (match spec_scan_bytes(buf@.skip(pos as int), tag) {
            None => r is None,
            Some(None) => r == Some(None::<Vec<u8>>),
            Some(Some(content)) => r matches Some(Some(c)) && c@ == content,
        }),
    decreases buf@.len() - pos,
{
    if pos >= buf.len() {
        return Some(None);
    }
    let b: u8 = buf[pos];
    if b >= 128 {
        return None;
    }
    let wt: u8 = b % 8;
    proof {
        assert(buf@.skip(pos as int).skip(1) =~= buf@.skip(pos as int + 1));
        lemma_leb_decode_bounds(buf@.skip(pos as int + 1));
    }
    if wt == 0 {
        let (_nonzero, next): (bool, usize) = match leb_skip(buf, pos + 1) {
            Some(x) => x,
            None => {
                return None;
            },
        };
        proof {
            assert(buf@.skip(pos as int).skip(next - pos as int) =~= buf@.skip(next as int));
        }
        scan_bytes_field(buf, next, tag)
    } else if wt == 2 {
        let (len, next): (u32, usize) = match leb_decode_at(buf, pos + 1) {
            Some(x) => x,
            None => {
                return None;
            },
        };
        if buf.len() - next < len as usize {
            return None;
        }
        let after: usize = next + len as usize;
        proof {
            assert(buf@.skip(pos as int).skip(after - pos as int) =~= buf@.skip(after as int));
        }
        match scan_bytes_field(buf, after, tag) {
            None => None,
            Some(rest) => {
                if b == tag {
                    match rest {
                        Some(rc) => Some(Some(rc)),
                        None => {
                            let mut content: Vec<u8> = Vec::new();
                            let mut i: usize = next;
                            while i < after
                                invariant
                                    next <= i <= after <= buf@.len(),
                                    content@ == buf@.subrange(next as int, i as int),
                                decreases after - i,
                            {
                                content.push(buf[i]);
                                i = i + 1;
                                proof {
                                    assert(content@ =~= buf@.subrange(next as int, i as int));
                                }
                            }
                            proof {
                                assert(content@ =~= buf@.skip(pos as int).subrange(
                                    next - pos as int,
                                    after - pos as int,
                                ));
                            }
                            Some(Some(content))
                        },
                    }
                } else {
                    Some(rest)
                }
            },
        }
    } else if wt == 5 {
        if buf.len() - pos < 5 {
            return None;
        }
        proof {
            assert(buf@.skip(pos as int).skip(5) =~= buf@.skip(pos as int + 5));
        }
        scan_bytes_field(buf, pos + 5, tag)
    } else if wt == 1 {
        if buf.len() - pos < 9 {
            return None;
        }
        proof {
            assert(buf@.skip(pos as int).skip(9) =~= buf@.skip(pos as int + 9));
        }
        scan_bytes_field(buf, pos + 9, tag)
    } else {
        None
    }
}

/// What a connect-response payload says about the password: `None` when
/// the payload is malformed.
pub open spec fn spec_connect_response_parsed(s: Seq<u8>) -> Option<bool> {
    match spec_scan_varint(s, 8) {
        None => None,
        Some(o) => Some(o matches Some(v) && v != 0),
    }
}

/// The name bytes a device-info payload carries, empty when the field is
/// absent; `None` when the payload is malformed.
pub open spec fn spec_device_info_name_bytes(s: Seq<u8>) -> Option<Seq<u8>> {
    match spec_scan_bytes(s, 10) {
        None => None,
        Some(None) => Some(Seq::<u8>::empty()),
        Some(Some(content)) => Some(content),
    }
}

/// Append `src` to `dst`./// Append `src` to `dst`.
fn append_bytes(dst: &mut Vec<u8>, src: &[u8])
    ensures
        final(dst)@ == old(dst)@ + src@,
{
    let mut i: usize = 0;
    while i < src.len()
        invariant
            i <= src@.len(),
            dst@ == old(dst)@ + src@.subrange(0, i as int),
        decreases src@.len() - i,
    {
        dst.push(src[i]);
        i = i + 1;
        proof {
            assert(dst@ =~= old(dst)@ + src@.subrange(0, i as int));
        }
    }
    proof {
        assert(dst@ =~= old(dst)@ + src@);
    }
}

/// The capability Hello the client opens the session with.
#[derive(Clone, Debug, PartialEq, Eq)]
pub struct HelloRequest {
    pub client_info: String,
    pub api_version_major: u32,
    pub api_version_minor: u32,
}

/// The wire bytes of a [`HelloRequest`].
pub open spec fn spec_hello_request_bytes(client_info: Seq<u8>, major: u32, minor: u32) -> Seq<
    u8,
> {
    spec_string_field(10, client_info) + spec_u32_field(16, major) + spec_u32_field(24, minor)
}

impl HelloRequest {
    pub fn encode(&self) -> (r: Vec<u8>)
        requires
            encode_utf8(self.client_info@).len() <= 0xFFFF_FFFF,
        ensures
            r@ == spec_hello_request_bytes(
                encode_utf8(self.client_info@),
                self.api_version_major,
                self.api_version_minor,
            ),
    {
        let mut out: Vec<u8> = Vec::new();
        let bs: &[u8] = self.client_info.as_str().as_bytes();
        if bs.len() > 0 {
            out.push(10);
            let lenb: Vec<u8> = leb_encode(bs.len() as u32);
            append_bytes(&mut out, lenb.as_slice());
            append_bytes(&mut out, bs);
        }
        let ghost head: Seq<u8> = out@;
        proof {
            assert(head =~= spec_string_field(10, encode_utf8(self.client_info@)));
        }
        if self.api_version_major != 0 {
            out.push(16);
            let vb: Vec<u8> = leb_encode(self.api_version_major);
            append_bytes(&mut out, vb.as_slice());
        }
        let ghost head2: Seq<u8> = out@;
        proof {
            assert(head2 =~= head + spec_u32_field(16, self.api_version_major));
        }
        if self.api_version_minor != 0 {
            out.push(24);
            let vb: Vec<u8> = leb_encode(self.api_version_minor);
            append_bytes(&mut out, vb.as_slice());
        }
        proof {
            assert(out@ =~= head2 + spec_u32_field(24, self.api_version_minor));
            assert(out@ =~= spec_hello_request_bytes(
                encode_utf8(self.client_info@),
                self.api_version_major,
                self.api_version_minor,
            ));
        }
        out
    }
}

/// The authentication request carrying the configured password.
#[derive(Clone, Debug, PartialEq, Eq)]
pub struct ConnectRequest {
    pub password: String,
}

/// The wire bytes of a [`ConnectRequest`].
pub open spec fn spec_connect_request_bytes(password: Seq<u8>) -> Seq<u8> {
    spec_string_field(10, password)
}

impl ConnectRequest {
    pub fn encode(&self) -> (r: Vec<u8>)
        requires
            encode_utf8(self.password@).len() <= 0xFFFF_FFFF,
        ensures
            r@ == spec_connect_request_bytes(encode_utf8(self.password@)),
    {
        let mut out: Vec<u8> = Vec::new();
        let bs: &[u8] = self.password.as_str().as_bytes();
        if bs.len() > 0 {
            out.push(10);
            let lenb: Vec<u8> = leb_encode(bs.len() as u32);
            append_bytes(&mut out, lenb.as_slice());
            append_bytes(&mut out, bs);
        }
        proof {
            assert(out@ =~= spec_connect_request_bytes(encode_utf8(self.password@)));
        }
        out
    }
}

/// The authentication response; `invalid_password` set means the connect
/// attempt must fail.
#[derive(Clone, Debug, PartialEq, Eq)]
pub struct ConnectResponse {
    pub invalid_password: bool,
}

/// The wire bytes of a [`ConnectResponse`].
pub open spec fn spec_connect_response_bytes(invalid_password: bool) -> Seq<u8> {
    spec_bool_field(8, invalid_password)
}

impl ConnectResponse {
    /// Decode a connect response: the last value of the invalid-password
    /// field (field 1, varint), absent meaning valid; fields this message
    /// does not define are skipped.
    pub fn decode(bytes: &Vec<u8>) -> (r: Option<ConnectResponse>)
        ensures
            (match spec_connect_response_parsed(bytes@) {
                Some(b) => r == Some(ConnectResponse { invalid_password: b }),
                None => r is None,
            }),
    {
        proof {
            assert(bytes@.skip(0) =~= bytes@);
        }
        match scan_varint_field(bytes, 0, 8) {
            None => None,
            Some(o) => Some(
                ConnectResponse {
                    invalid_password: match o {
                        Some(nonzero) => nonzero,
                        None => false,
                    },
                },
            ),
        }
    }
}

/// The device identity returned after a successful connect.
#[derive(Clone, Debug, PartialEq, Eq)]
pub struct DeviceInfoResponse {
    pub name: String,
}

/// The wire bytes of a [`DeviceInfoResponse`].
pub open spec fn spec_device_info_bytes(name: Seq<u8>) -> Seq<u8> {
    spec_string_field(10, name)
}

impl DeviceInfoResponse {
    /// Decode a device-info response: the last content of the name field
    /// (field 1, length-delimited), absent meaning nameless; fields this
    /// message does not define are skipped. The name need not be valid
    /// UTF-8; invalid bytes decode lossily.
    pub fn decode(bytes: &Vec<u8>) -> (r: Option<DeviceInfoResponse>)
        ensures
            (match spec_device_info_name_bytes(bytes@) {
                Some(content) => r matches Some(m) && (content.len() == 0 ==> m.name@.len() == 0)
                    && (content.len() > 0 ==> m.name@ == utf8_lossy_of(content)),
                None => r is None,
            }),
    {
        proof {
            assert(bytes@.skip(0) =~= bytes@);
        }
        match scan_bytes_field(bytes, 0, 10) {
            None => None,
            Some(None) => Some(DeviceInfoResponse { name: String::new() }),
            Some(Some(content)) => {
                if content.len() == 0 {
                    return Some(DeviceInfoResponse { name: String::new() });
                }
                let name: String = crate::connection::noise::utf8_lossy(&content);
                Some(DeviceInfoResponse { name })
            },
        }
    }
}

/// The reply to a get-time request, in epoch seconds.
#[derive(Clone, Debug, PartialEq, Eq)]
pub struct GetTimeResponse {
    pub epoch_seconds: u32,
}

/// The wire bytes of a [`GetTimeResponse`].
pub open spec fn spec_get_time_bytes(epoch_seconds: u32) -> Seq<u8> {
    spec_u32_field(8, epoch_seconds)
}

impl GetTimeResponse {
    pub fn encode(&self) -> (r: Vec<u8>)
        ensures
            r@ == spec_get_time_bytes(self.epoch_seconds),
    {
        let mut out: Vec<u8> = Vec::new();
        if self.epoch_seconds != 0 {
            out.push(8);
            let vb: Vec<u8> = leb_encode(self.epoch_seconds);
            append_bytes(&mut out, vb.as_slice());
        }
        proof {
            assert(out@ =~= spec_get_time_bytes(self.epoch_seconds));
        }
        out
    }
}

/// Encoding a connect response and decoding it yields the value back.
pub proof fn lemma_connect_response_round_trip(invalid_password: bool)
    ensures
        spec_connect_response_parsed(spec_connect_response_bytes(invalid_password)) == Some(
            invalid_password,
        ),
{
    let s = spec_connect_response_bytes(invalid_password);
    if invalid_password {
        assert(s.skip(1) =~= seq![1u8]);
        assert(s.skip(2) =~= Seq::<u8>::empty());
        assert(spec_leb_decode(s.skip(1)) == Some((1int, 1nat)));
        assert(spec_scan_varint(s.skip(2), 8) == Some(None::<int>));
    } else {
        assert(s =~= Seq::<u8>::empty());
    }
}

/// Encoding a length-delimited field and scanning it back yields the same
/// content bytes.
pub proof fn lemma_string_field_round_trip(tag: u8, content: Seq<u8>)
    requires
        0 < content.len() <= 0xFFFF_FFFF,
        tag < 128,
        tag % 8 == 2,
    ensures
        spec_scan_bytes(spec_string_field(tag, content), tag) == Some(Some(content)),
{
    let s = spec_string_field(tag, content);
    let lenb = leb_bytes(content.len() as u32);
    assert(s.skip(1) =~= lenb + content);
    lemma_leb_round_trip(content.len() as u32, content);
    assert(spec_leb_decode(s.skip(1)) == Some((content.len() as int, lenb.len())));
    let after = 1 + lenb.len() + content.len();
    assert(s.skip(after as int) =~= Seq::<u8>::empty());
    assert(spec_scan_bytes(s.skip(after as int), tag) == Some(None::<Seq<u8>>));
    assert(s.subrange((1 + lenb.len()) as int, after as int) =~= content);
}

} // verus!
