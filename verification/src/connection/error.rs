use vstd::prelude::*;

verus! {

/// Everything that can go wrong below the session layer: transport state,
/// framing, the varint codec, and the cryptographic channel.
#[derive(Clone, Copy, Debug, PartialEq, Eq, Structural)]
pub enum ConnectionError {
    /// A send or receive was attempted while no transport is established.
    NotConnected,
    /// A frame carried a message-type identifier outside the registry.
    UnknownMessageType(u16),
    /// A handshake step or a transport encrypt/decrypt failed.
    NoiseDecrypt,
    /// The configured pre-shared key is not valid base64 of at most 32 bytes.
    Base64DecodeSlice,
    /// A ServerHello frame did not start with the protocol marker byte.
    ClientWantsUnknownNoiseProtocol(u8),
    /// A ServerHello frame carried no null terminator after the peer name.
    MessageMissingNullTerminator,
    /// The handshake response frame did not start with a zero byte.
    HandshakeHadWrongPreamble(u8),
    /// An outer frame did not start with the preamble its transport expects.
    FrameHadWrongPreamble(u8),
    /// A varint started with one of the reserved bytes 252-255.
    InvalidVarintFirstByte(u8),
    /// A five-byte varint denoted a value that does not fit in 32 bits.
    VarintOverflow,
    /// A decrypted frame is too short to hold the four-byte inner header.
    TruncatedFrame,
    /// The buffer ends before the frame does; the caller must read more.
    Incomplete,
}

} // verus!
