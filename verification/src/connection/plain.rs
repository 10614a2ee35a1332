//! The plaintext transport codec. A message travels as a varint-coded
//! preamble `0`, the varint of its message-type identifier, the varint of
//! its payload length, and the raw payload bytes, in that order on both the
//! send and the receive path.

use vstd::prelude::*;

use crate::connection::error::ConnectionError;
use crate::connection::varu::{
    lemma_varu32_round_trip, varu32_bytes, varu32_decode, varu32_from_bytes, varu32_len,
    varu32_to_bytes, VaruDecoded,
};
use crate::model::{lemma_msg_type_id_round_trip, msg_type_from_id, msg_type_id, MessageType};

verus! {

/// The wire bytes of one plaintext message.
pub open spec fn spec_plain_packet(t: MessageType, payload: Seq<u8>) -> Seq<u8> {
    seq![0u8] + varu32_bytes(msg_type_id(t) as u32) + varu32_bytes(payload.len() as u32) + payload
}

/// The error a failed varint read surfaces as.
pub open spec fn spec_varu_error(d: VaruDecoded) -> ConnectionError {
    match d {
        VaruDecoded::InvalidFirstByte(b) => ConnectionError::InvalidVarintFirstByte(b),
        VaruDecoded::Overflow => ConnectionError::VarintOverflow,
        _ => ConnectionError::Incomplete,
    }
}

/// Decode one plaintext message from the front of `s`: on success the
/// message kind, its payload, and the number of bytes the message occupied.
pub open spec fn spec_plain_decode(s: Seq<u8>) -> Result<
    (MessageType, Seq<u8>, nat),
    ConnectionError,
> {
    match varu32_decode(s) {
        VaruDecoded::Value { v: preamble, n: n0 } => {
            if preamble != 0 {
                Err(ConnectionError::FrameHadWrongPreamble(preamble as u8))
            } else {
                match varu32_decode(s.skip(n0 as int)) {
                    VaruDecoded::Value { v: tid, n: n1 } => {
                        match msg_type_from_id(tid as u16) {
                            None => Err(ConnectionError::UnknownMessageType(tid as u16)),
                            Some(t) => {
                                match varu32_decode(s.skip((n0 + n1) as int)) {
                                    VaruDecoded::Value { v: len, n: n2 } => {
                                        let start = n0 + n1 + n2;
                                        if s.len() < start + len {
                                            Err(ConnectionError::Incomplete)
                                        } else {
                                            Ok(
                                                (
                                                    t,
                                                    s.subrange(start as int, (start + len) as int),
                                                    (start + len) as nat,
                                                ),
                                            )
                                        }
                                    },
                                    d => Err(spec_varu_error(d)),
                                }
                            },
                        }
                    },
                    d => Err(spec_varu_error(d)),
                }
            }
        },
        d => Err(spec_varu_error(d)),
    }
}

/// The plaintext transport. It is constructed disconnected; the socket
/// itself lives with the caller, which reports its presence through
/// `connect` and `disconnect`, and every codec operation fails with a
/// not-connected error while no socket is present.
pub struct PlainConnection {
    pub ip: String,
    connected: bool,
}

impl PlainConnection {
    /// Whether a socket is currently established for this transport.
    pub closed spec fn spec_connected(&self) -> bool {
        self.connected
    }

    /// The address this transport was configured with.
    pub closed spec fn spec_ip(&self) -> String {
        self.ip
    }

    pub fn new(ip: String) -> (r: Self)
        ensures
            r.spec_ip() == ip,
            !r.spec_connected(),
    {
        Self { ip, connected: false }
    }

    pub fn is_connected(&self) -> (r: bool)
        ensures
            r == self.spec_connected(),
    {
        self.connected
    }

    /// Record that the socket is established. Connecting while already
    /// connected is a no-op, not an error.
    pub fn connect(&mut self)
        ensures
            final(self).spec_connected(),
            final(self).spec_ip() == old(self).spec_ip(),
    {
        self.connected = true;
    }

    /// Tear the transport down unconditionally.
    pub fn disconnect(&mut self)
        ensures
            !final(self).spec_connected(),
            final(self).spec_ip() == old(self).spec_ip(),
    {
        self.connected = false;
    }

    /// The plaintext protocol negotiates no peer name.
    pub fn get_name(&self) -> (r: Option<String>)
        ensures
            r is None,
    {
        None
    }

    /// Build the wire bytes that send `msg_bytes` as a message of kind
    /// `msg_type`.
    pub fn send_msg(&self, msg_type: MessageType, msg_bytes: &Vec<u8>) -> (r: Result<
        Vec<u8>,
        ConnectionError,
    >)
        requires
            msg_bytes@.len() <= 0xFFFF_FFFF,
        ensures
            r is Ok <==> self.spec_connected(),
            r matches Ok(p) ==> p@ == spec_plain_packet(msg_type, msg_bytes@),
            r matches Err(e) ==> e == ConnectionError::NotConnected,
    {
        if !self.connected {
            return Err(ConnectionError::NotConnected);
        }
        let type_var: Vec<u8> = varu32_to_bytes(msg_type.id() as u32);
        let len_var: Vec<u8> = varu32_to_bytes(msg_bytes.len() as u32);
        let mut packet: Vec<u8> = Vec::new();
        packet.push(0);
        let mut i: usize = 0;
        while i < type_var.len()
            invariant
                i <= type_var@.len(),
                packet@ == seq![0u8] + type_var@.subrange(0, i as int),
            decreases type_var@.len() - i,
        {
            packet.push(type_var[i]);
            i = i + 1;
            proof {
                assert(packet@ =~= seq![0u8] + type_var@.subrange(0, i as int));
            }
        }
        proof {
            assert(packet@ =~= seq![0u8] + type_var@);
        }
        let ghost head: Seq<u8> = packet@;
        let mut j: usize = 0;
        while j < len_var.len()
            invariant
                j <= len_var@.len(),
                packet@ == head + len_var@.subrange(0, j as int),
            decreases len_var@.len() - j,
        {
            packet.push(len_var[j]);
            j = j + 1;
            proof {
                assert(packet@ =~= head + len_var@.subrange(0, j as int));
            }
        }
        proof {
            assert(packet@ =~= head + len_var@);
        }
        let ghost head2: Seq<u8> = packet@;
        let mut k: usize = 0;
        while k < msg_bytes.len()
            invariant
                k <= msg_bytes@.len(),
                packet@ == head2 + msg_bytes@.subrange(0, k as int),
            decreases msg_bytes@.len() - k,
        {
            packet.push(msg_bytes[k]);
            k = k + 1;
            proof {
                assert(packet@ =~= head2 + msg_bytes@.subrange(0, k as int));
            }
        }
        proof {
            assert(packet@ =~= head2 + msg_bytes@);
            assert(packet@ =~= spec_plain_packet(msg_type, msg_bytes@));
        }
        Ok(packet)
    }

    /// Decode one message from the front of `buf`. On success the returned
    /// count says how many bytes of `buf` the message occupied, so the
    /// caller can drop them. An `Incomplete` error asks the caller to read
    /// more bytes and try again.
    pub fn recv_msg(&self, buf: &Vec<u8>) -> (r: Result<
        (MessageType, Vec<u8>, usize),
        ConnectionError,
    >)
        ensures
            !self.spec_connected() ==> r == Err::<(MessageType, Vec<u8>, usize), ConnectionError>(
                ConnectionError::NotConnected,
            ),
            self.spec_connected() ==> (match spec_plain_decode(buf@) {
                Ok((t, p, n)) => r matches Ok((rt, rp, rn)) && rt == t && rp@ == p && rn == n,
                Err(e) => r == Err::<(MessageType, Vec<u8>, usize), ConnectionError>(e),
            }),
    {
        if !self.connected {
            return Err(ConnectionError::NotConnected);
        }
        let (preamble, after_preamble): (u32, usize) = match varu32_from_bytes(buf, 0) {
            Ok(p) => p,
            Err(e) => {
                return Err(e);
            },
        };
        proof {
            assert(buf@.skip(0) =~= buf@);
        }
        if preamble != 0 {
            return Err(ConnectionError::FrameHadWrongPreamble(preamble as u8));
        }
        let (tid, after_type): (u32, usize) = match varu32_from_bytes(buf, after_preamble) {
            Ok(p) => p,
            Err(e) => {
                return Err(e);
            },
        };
        let t: MessageType = match MessageType::from_repr(tid as u16) {
            Some(t) => t,
            None => {
                return Err(ConnectionError::UnknownMessageType(tid as u16));
            },
        };
        let (len, start): (u32, usize) = match varu32_from_bytes(buf, after_type) {
            Ok(p) => p,
            Err(e) => {
                return Err(e);
            },
        };
        if buf.len() - start < len as usize {
            return Err(ConnectionError::Incomplete);
        }
        let end: usize = start + len as usize;
        let mut payload: Vec<u8> = Vec::new();
        let mut i: usize = start;
        while i < end
            invariant
                start <= i <= end <= buf@.len(),
                payload@ == buf@.subrange(start as int, i as int),
            decreases end - i,
        {
            payload.push(buf[i]);
            i = i + 1;
            proof {
                assert(payload@ =~= buf@.subrange(start as int, i as int));
            }
        }
        Ok((t, payload, end))
    }
}

/// An identifier outside the registry makes the whole decode fail with the
/// unknown-type error; it is never silently skipped.
pub proof fn lemma_plain_unknown_type_is_error(s: Seq<u8>, n0: nat, tid: u32, n1: nat)
    requires
        varu32_decode(s) == (VaruDecoded::Value { v: 0u32, n: n0 }),
        varu32_decode(s.skip(n0 as int)) == (VaruDecoded::Value { v: tid, n: n1 }),
        msg_type_from_id(tid as u16) is None,
    ensures
        spec_plain_decode(s) == Err::<(MessageType, Seq<u8>, nat), ConnectionError>(
            ConnectionError::UnknownMessageType(tid as u16),
        ),
{
}

/// Encoding a message and decoding it back through the receive path yields
/// the same kind and payload, whatever bytes follow the message.
#[verifier::rlimit(60)]
#[verifier::spinoff_prover]
pub proof fn lemma_plain_round_trip(t: MessageType, payload: Seq<u8>, rest: Seq<u8>)
    requires
        payload.len() <= 0xFFFF_FFFF,
    ensures
        spec_plain_decode(spec_plain_packet(t, payload) + rest) == Ok::<
            (MessageType, Seq<u8>, nat),
            ConnectionError,
        >((t, payload, spec_plain_packet(t, payload).len())),
{
    let tid: u32 = msg_type_id(t) as u32;
    let a = varu32_bytes(tid);
    let b = varu32_bytes(payload.len() as u32);
    let s = spec_plain_packet(t, payload) + rest;
    assert(s =~= varu32_bytes(0) + (a + b + payload + rest));
    lemma_varu32_round_trip(0, a + b + payload + rest);
    assert(varu32_decode(s) == VaruDecoded::Value { v: 0u32, n: 1nat });
    assert(s.skip(1) =~= a + (b + payload + rest));
    lemma_varu32_round_trip(tid, b + payload + rest);
    let n1 = varu32_len(tid);
    assert(varu32_decode(s.skip(1int)) == VaruDecoded::Value { v: tid, n: n1 });
    lemma_msg_type_id_round_trip(t);
    assert(s.skip((1 + n1) as int) =~= b + (payload + rest));
    lemma_varu32_round_trip(payload.len() as u32, payload + rest);
    let n2 = varu32_len(payload.len() as u32);
    let start = 1 + n1 + n2;
    assert(s.len() >= start + payload.len());
    assert(s.subrange(start as int, (start + payload.len()) as int) =~= payload);
    assert(spec_plain_packet(t, payload).len() == start + payload.len());
}

} // verus!
