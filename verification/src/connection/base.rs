//! The dual-mode connection: one closed variant per wire format, selected
//! at construction time and never at call time.

use vstd::prelude::*;

use crate::connection::error::ConnectionError;
use crate::connection::noise::{spec_inner_frame, spec_outer_packet, spec_parse_inner, NoiseConnection};
use crate::connection::plain::{spec_plain_decode, spec_plain_packet, PlainConnection};
use crate::model::{msg_type_id, MessageType};

verus! {

/// A connection to one device, either encrypted or plaintext.
pub enum Connection {
    Noise(NoiseConnection),
    Plain(PlainConnection),
}

impl Connection {
    /// Whether the transport is established and can frame messages.
    pub open spec fn spec_connected(&self) -> bool {
        match self {
            Connection::Noise(c) => c.spec_connected(),
            Connection::Plain(c) => c.spec_connected(),
        }
    }

    /// Whether the two values are the same variant with the same identity
    /// and state, the cipher state aside.
    pub open spec fn spec_same_identity(&self, other: &Self) -> bool {
        match (self, other) {
            (Connection::Noise(a), Connection::Noise(b)) => a.spec_ip() == b.spec_ip()
                && a.spec_psk() == b.spec_psk() && a.spec_connected() == b.spec_connected()
                && a.spec_server_name() == b.spec_server_name(),
            (Connection::Plain(a), Connection::Plain(b)) => a.spec_ip() == b.spec_ip()
                && a.spec_connected() == b.spec_connected(),
            _ => false,
        }
    }

    pub fn is_connected(&self) -> (r: bool)
        ensures
            r == self.spec_connected(),
    {
        match self {
            Connection::Noise(c) => c.is_connected(),
            Connection::Plain(c) => c.is_connected(),
        }
    }

    /// Build the wire bytes that send `msg_bytes` as a message of kind
    /// `msg_type`, through whichever framing this connection speaks.
    pub fn send_msg(&mut self, msg_type: MessageType, msg_bytes: &Vec<u8>) -> (r: Result<
        Vec<u8>,
        ConnectionError,
    >)
        requires
            msg_bytes@.len() <= 0xFFFF_FFFF,
        ensures
            old(self).spec_same_identity(final(self)),
            !old(self).spec_connected() ==> r == Err::<Vec<u8>, ConnectionError>(
                ConnectionError::NotConnected,
            ),
            old(self) matches Connection::Plain(_) && old(self).spec_connected() ==> (r matches Ok(
                b,
            ) && b@ == spec_plain_packet(msg_type, msg_bytes@)),
            old(self) matches Connection::Noise(_) ==> (r matches Ok(b) ==> exists|ct: Seq<u8>|
                ct.len() == spec_inner_frame(msg_type_id(msg_type), msg_bytes@).len() + 16
                    && ct.len() == msg_bytes@.len() + 20 && ct.len() <= 65535 && b@
                    == spec_outer_packet(ct)),
            old(self) matches Connection::Noise(_) && old(self).spec_connected() ==> (r matches Err(
                e,
            ) ==> e == ConnectionError::NoiseDecrypt),
            old(self) matches Connection::Noise(_) && old(self).spec_connected() && msg_bytes@.len()
                > 65515 ==> r == Err::<Vec<u8>, ConnectionError>(ConnectionError::NoiseDecrypt),
    {
        match self {
            Connection::Noise(c) => c.send_msg(msg_type, msg_bytes),
            Connection::Plain(c) => c.send_msg(msg_type, msg_bytes),
        }
    }

    /// Decode one message from the front of `buf`. On success the returned
    /// count says how many bytes of `buf` the message occupied. An
    /// `Incomplete` error asks the caller to read more bytes and retry.
    pub fn recv_msg(&mut self, buf: &Vec<u8>) -> (r: Result<
        (MessageType, Vec<u8>, usize),
        ConnectionError,
    >)
        ensures
            old(self).spec_same_identity(final(self)),
            !old(self).spec_connected() ==> r == Err::<
                (MessageType, Vec<u8>, usize),
                ConnectionError,
            >(ConnectionError::NotConnected),
            old(self) matches Connection::Plain(_) && old(self).spec_connected() ==> (
            match spec_plain_decode(buf@) {
                Ok((t, p, n)) => r matches Ok((rt, rp, rn)) && rt == t && rp@ == p && rn == n,
                Err(e) => r == Err::<(MessageType, Vec<u8>, usize), ConnectionError>(e),
            }),
            old(self) matches Connection::Noise(_) && old(self).spec_connected() ==> {
                &&& buf@.len() < 3 ==> r == Err::<(MessageType, Vec<u8>, usize), ConnectionError>(
                    ConnectionError::Incomplete,
                )
                &&& buf@.len() >= 3 && buf@[0] != 1 ==> r == Err::<
                    (MessageType, Vec<u8>, usize),
                    ConnectionError,
                >(ConnectionError::FrameHadWrongPreamble(buf@[0]))
                &&& buf@.len() >= 3 && buf@[0] == 1 && buf@.len() < 3 + buf@[1] * 256 + buf@[2]
                    ==> r == Err::<(MessageType, Vec<u8>, usize), ConnectionError>(
                    ConnectionError::Incomplete,
                )
                &&& r matches Ok((t, p, n)) ==> n == 3 + buf@[1] * 256 + buf@[2] && exists|
                    pt: Seq<u8>,
                |
                    spec_parse_inner(pt) == Ok::<(MessageType, Seq<u8>), ConnectionError>((t, p@))
                &&& r matches Err(e) ==> (e == ConnectionError::Incomplete || e
                    matches ConnectionError::FrameHadWrongPreamble(_) || e
                    == ConnectionError::NoiseDecrypt || e == ConnectionError::TruncatedFrame || e
                    matches ConnectionError::UnknownMessageType(_))
            },
    {
        match self {
            Connection::Plain(c) => c.recv_msg(buf),
            Connection::Noise(c) => {
                if !c.is_connected() {
                    return Err(ConnectionError::NotConnected);
                }
                if buf.len() < 3 {
                    return Err(ConnectionError::Incomplete);
                }
                if buf[0] != 1 {
                    return Err(ConnectionError::FrameHadWrongPreamble(buf[0]));
                }
                let body_len: usize = (buf[1] as usize) * 256 + buf[2] as usize;
                if buf.len() - 3 < body_len {
                    return Err(ConnectionError::Incomplete);
                }
                let end: usize = 3 + body_len;
                let mut body: Vec<u8> = Vec::new();
                let mut i: usize = 3;
                while i < end
                    invariant
                        3 <= i <= end <= buf@.len(),
                        body@ == buf@.subrange(3, i as int),
                    decreases end - i,
                {
                    body.push(buf[i]);
                    i = i + 1;
                    proof {
                        assert(body@ =~= buf@.subrange(3, i as int));
                    }
                }
                match c.recv_msg(&body) {
                    Ok((t, p)) => Ok((t, p, end)),
                    Err(e) => Err(e),
                }
            },
        }
    }

    /// Tear the transport down unconditionally.
    pub fn disconnect(&mut self)
        ensures
            !final(self).spec_connected(),
            old(self) matches Connection::Plain(_) <==> (*final(self)) matches Connection::Plain(_),
    {
        match self {
            Connection::Noise(c) => c.disconnect(),
            Connection::Plain(c) => c.disconnect(),
        }
    }

    /// The peer display name, where the wire format negotiates one.
    pub fn get_name(&self) -> (r: Option<String>)
        ensures
            self matches Connection::Plain(_) ==> r is None,
            self matches Connection::Noise(c) ==> (match r {
                Some(n) => c.spec_server_name() matches Some(m) && n@ == m@,
                None => c.spec_server_name() is None,
            }),
    {
        match self {
            Connection::Noise(c) => c.get_name(),
            Connection::Plain(c) => c.get_name(),
        }
    }
}

} // verus!
