//! Decoding of game packets on the low-level transport: a variable-length
//! integer codec and the game-packet framing (length prefix, 14-bit header
//! carrying a 10-bit packet identifier and two 2-bit sub-client fields,
//! payload). Stream plumbing (decompression, decryption) lives outside the
//! library; the parser here works on plain bytes.

use vstd::prelude::*;
use vstd::slice::{slice_subrange, slice_to_vec};

verus! {

/// Payload size above which packets are compressed.
pub type CompressionThreshold = u32;

/// Declares `bytes::Bytes`, the reference-counted byte buffer payloads are
/// handed out in.
#[verifier::external_type_specification]
#[verifier::external_body]
pub struct ExBytes(bytes::Bytes);

/// The bytes a `bytes::Bytes` buffer holds.
pub uninterp spec fn bytes_view(b: bytes::Bytes) -> Seq<u8>;

/// Relies on `bytes::Bytes::from(Vec<u8>)`: the new buffer holds exactly the
/// vector's bytes.
#[verifier::external_body]
pub fn bytes_from_vec(v: Vec<u8>) -> (r: bytes::Bytes)
    ensures
        bytes_view(r) == v@,
{
    bytes::Bytes::from(v)
}

/// Relies on `Bytes` dereferencing to its byte slice and `to_vec`: the
/// buffer's bytes, copied out.
#[verifier::external_body]
pub fn bytes_to_vec(b: &bytes::Bytes) -> (r: Vec<u8>)
    ensures
        r@ == bytes_view(*b),
{
    b.to_vec()
}

/// Why a packet could not be decoded.
#[derive(PartialEq, Eq, Debug)]
pub enum PacketDecodeError {
    /// The stream ended cleanly where more bytes were owed.
    ConnectionClosed,
    /// The length prefix is not a well-formed variable-length integer.
    MalformedLength(String),
    /// The declared payload could not be read in full.
    FailedDecompression(String),
}

/// A decoded packet: its identifier and its payload.
#[derive(Debug)]
pub struct RawPacket {
    pub id: i32,
    pub payload: bytes::Bytes,
}

impl RawPacket {
    /// The payload, copied out as plain bytes.
    pub fn payload_bytes(&self) -> (r: Vec<u8>)
        ensures
            r@ == bytes_view(self.payload),
    {
        bytes_to_vec(&self.payload)
    }
}

/// Outcome of decoding a variable-length integer.
#[derive(Clone, Copy, PartialEq, Eq, Structural, Debug)]
pub enum VarUIntResult {
    /// The value and how many bytes encoded it.
    Value(u32, usize),
    /// The data ended inside the integer.
    Eof,
    /// A fifth byte still carried a continuation bit.
    TooLong,
}

/// Decoding a variable-length integer from `pos`, `k` bytes into it, with
/// the bits gathered so far: seven payload bits per byte, least significant
/// group first, at most five bytes.
pub open spec fn spec_varuint_from(data: Seq<u8>, pos: int, k: nat, acc: u32) -> VarUIntResult
    decreases 5 - k,
{
    if k >= 5 {
        VarUIntResult::TooLong
    } else if pos + k >= data.len() || pos + k < 0 {
        VarUIntResult::Eof
    } else {
        let b = data[pos + k];
        let acc2 = acc | (((b & 0x7F) as u32) << (7 * k));
        if b & 0x80 == 0 {
            VarUIntResult::Value(acc2, (k + 1) as usize)
        } else {
            spec_varuint_from(data, pos, k + 1, acc2)
        }
    }
}

/// Decoding a variable-length integer at `pos`.
pub open spec fn spec_varuint(data: Seq<u8>, pos: int) -> VarUIntResult {
    spec_varuint_from(data, pos, 0, 0)
}

/// Decodes a variable-length integer at `pos`.
pub fn decode_varuint(data: &[u8], pos: usize) -> (r: VarUIntResult)
    ensures
        r == spec_varuint(data@, pos as int),
        r is Value ==> 1 <= r->Value_1 <= 5,
{
    let mut k: usize = 0;
    let mut acc: u32 = 0;
    loop
        invariant
            0 <= k <= 5,
            spec_varuint(data@, pos as int) == spec_varuint_from(data@, pos as int, k as nat, acc),
        decreases 5 - k,
    {
        if k >= 5 {
            return VarUIntResult::TooLong;
        }
        if pos >= data.len() || k >= data.len() - pos {
            return VarUIntResult::Eof;
        }
        let b = data[pos + k];
        let shift: u32 = 7 * (k as u32);
        let acc2 = acc | (((b & 0x7F) as u32) << shift);
        if b & 0x80 == 0 {
            return VarUIntResult::Value(acc2, k + 1);
        }
        acc = acc2;
        k = k + 1;
    }
}

/// What decoding a game packet from the given bytes yields, before payload
/// extraction: the identifier with the payload's range, or the error kind.
pub open spec fn spec_game_packet(has_compression: bool, data: Seq<u8>) -> VarUIntResult {
    spec_varuint(data, if has_compression { 1int } else { 0int })
}

/// Decoder of packets arriving from a client; decompression and decryption
/// settings are fixed by the handshake.
pub struct UDPNetworkDecoder {
    pub compression: Option<CompressionThreshold>,
}

impl UDPNetworkDecoder {
    /// A decoder with no compression configured.
    pub fn new() -> (r: UDPNetworkDecoder)
        ensures
            r.compression is None,
    {
        UDPNetworkDecoder { compression: None }
    }

    /// Configures the compression threshold.
    pub fn set_compression(&mut self, threshold: CompressionThreshold)
        ensures
            final(self).compression == Some(threshold),
    {
        self.compression = Some(threshold);
    }

    /// Encryption can only be switched on; a stream never goes back to being
    /// unencrypted. Key installation happens in the transport outside the
    /// library, so the decoder itself records nothing.
    pub fn set_encryption(&mut self, _key: &[u8; 16])
        ensures
            final(self).compression == old(self).compression,
    {
    }

    /// The raw packet payload: the buffer handed over unchanged.
    pub fn get_packet_payload(&self, reader: Vec<u8>) -> (r: Result<
        bytes::Bytes,
        PacketDecodeError,
    >)
        ensures
            r is Ok,
            r is Ok ==> bytes_view(r->Ok_0) == reader@,
    {
        Ok(bytes_from_vec(reader))
    }

    /// Decodes one game packet: skips the compression method byte when
    /// compression is on, reads the length prefix and the 14-bit header, and
    /// hands out the identifier with the payload bytes.
    pub fn get_game_packet(&self, data: &[u8]) -> (r: Result<RawPacket, PacketDecodeError>)
        requires
            self.compression is Some ==> data@.len() >= 1,
        ensures
            ({
                let pos = if self.compression is Some {
                    1int
                } else {
                    0int
                };
                match spec_varuint(data@, pos) {
                    VarUIntResult::Eof => r == Result::<
                        RawPacket,
                        PacketDecodeError,
                    >::Err(PacketDecodeError::ConnectionClosed),
                    VarUIntResult::TooLong => r is Err && r->Err_0 is MalformedLength,
                    VarUIntResult::Value(packet_len, len_size) => {
                        match spec_varuint(data@, pos + len_size) {
                            VarUIntResult::Eof => r == Result::<
                                RawPacket,
                                PacketDecodeError,
                            >::Err(PacketDecodeError::ConnectionClosed),
                            VarUIntResult::TooLong => r is Err && r->Err_0 is MalformedLength,
                            VarUIntResult::Value(header, header_size) => {
                                if packet_len < header_size || pos + len_size + header_size + (
                                packet_len - header_size) > data@.len() {
                                    r is Err && r->Err_0 is FailedDecompression
                                } else {
                                    &&& r is Ok
                                    &&& r->Ok_0.id == ((header & 0x3FFF) & 0x3FF) as i32
                                    &&& bytes_view(r->Ok_0.payload) == data@.subrange(
                                        pos + len_size + header_size,
                                        pos + len_size + header_size + (packet_len as int
                                            - header_size as int),
                                    )
                                }
                            },
                        }
                    },
                }
            }),
    {
        let pos: usize = if self.compression.is_some() {
            1
        } else {
            0
        };
        let (packet_len, len_size) = match decode_varuint(data, pos) {
            VarUIntResult::Eof => {
                return Err(PacketDecodeError::ConnectionClosed);
            },
            VarUIntResult::TooLong => {
                return Err(
                    PacketDecodeError::MalformedLength("malformed length prefix".to_owned()),
                );
            },
            VarUIntResult::Value(v, n) => (v, n),
        };
        let (var_header, header_size) = match decode_varuint(data, pos + len_size) {
            VarUIntResult::Eof => {
                return Err(PacketDecodeError::ConnectionClosed);
            },
            VarUIntResult::TooLong => {
                return Err(
                    PacketDecodeError::MalformedLength("malformed header".to_owned()),
                );
            },
            VarUIntResult::Value(v, n) => (v, n),
        };
        let header = var_header & 0x3FFF;
        let gamepacket_id: u32 = header & 0x3FF;
        if (packet_len as usize) < header_size {
            return Err(
                PacketDecodeError::FailedDecompression("payload shorter than header".to_owned()),
            );
        }
        let payload_len: usize = packet_len as usize - header_size;
        let start: usize = pos + len_size + header_size;
        if payload_len > data.len() || start > data.len() - payload_len {
            return Err(
                PacketDecodeError::FailedDecompression("payload truncated".to_owned()),
            );
        }
        let payload_slice = slice_subrange(data, start, start + payload_len);
        let payload_vec = slice_to_vec(payload_slice);
        proof {
            assert(gamepacket_id <= 0x3FF) by (bit_vector)
                requires
                    gamepacket_id == (var_header & 0x3FFF) & 0x3FF,
            ;
        }
        Ok(RawPacket { id: gamepacket_id as i32, payload: bytes_from_vec(payload_vec) })
    }
}

impl Default for UDPNetworkDecoder {
    /// A decoder with no compression configured.
    fn default() -> (r: UDPNetworkDecoder)
        ensures
            r.compression is None,
    {
        UDPNetworkDecoder::new()
    }
}

/// The fixed 16-byte marker RakNet offline messages carry.
pub fn raknet_magic() -> (r: [u8; 16])
    ensures
        r@ =~= seq![
            0x00u8,
            0xFFu8,
            0xFFu8,
            0x00u8,
            0xFEu8,
            0xFEu8,
            0xFEu8,
            0xFEu8,
            0xFDu8,
            0xFDu8,
            0xFDu8,
            0xFDu8,
            0x12u8,
            0x34u8,
            0x56u8,
            0x78u8,
        ],
{
    [
        0x00u8,
        0xFFu8,
        0xFFu8,
        0x00u8,
        0xFEu8,
        0xFEu8,
        0xFEu8,
        0xFEu8,
        0xFDu8,
        0xFDu8,
        0xFDu8,
        0xFDu8,
        0x12u8,
        0x34u8,
        0x56u8,
        0x78u8,
    ]
}

/// The first reply of the RakNet open-connection handshake.
#[derive(Clone, Copy, Debug)]
pub struct COpenConnectionReply1 {
    pub magic: [u8; 16],
    pub server_guid: u64,
    pub has_server_security: bool,
    pub mtu: u16,
}

impl COpenConnectionReply1 {
    /// A reply carrying the fixed magic and the given handshake fields.
    pub fn new(server_guid: u64, has_server_security: bool, mtu: u16) -> (r: COpenConnectionReply1)
        ensures
            r.server_guid == server_guid,
            r.has_server_security == has_server_security,
            r.mtu == mtu,
            r.magic@ == raknet_magic_seq(),
    {
        COpenConnectionReply1 { magic: raknet_magic(), server_guid, has_server_security, mtu }
    }
}

/// The fixed 16-byte RakNet marker, as a sequence.
pub open spec fn raknet_magic_seq() -> Seq<u8> {
    seq![
        0x00u8,
        0xFFu8,
        0xFFu8,
        0x00u8,
        0xFEu8,
        0xFEu8,
        0xFEu8,
        0xFEu8,
        0xFDu8,
        0xFDu8,
        0xFDu8,
        0xFDu8,
        0x12u8,
        0x34u8,
        0x56u8,
        0x78u8,
    ]
}

} // verus!
