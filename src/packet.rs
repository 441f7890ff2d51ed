use vstd::prelude::*;
use vstd::arithmetic::div_mod::{lemma_add_mod_noop_right, lemma_fundamental_div_mod};

verus! {

#[verifier::external_type_specification]
#[verifier::external_body]
pub struct ExBytes(bytes::Bytes);

/// The contents of a `bytes::Bytes` buffer.
pub uninterp spec fn bytes_view(b: bytes::Bytes) -> Seq<u8>;

/// Relies on `bytes::Bytes::from(Vec<u8>)`: the buffer takes over the vector's
/// storage and holds exactly its bytes.
#[verifier::external_body]
fn freeze(v: Vec<u8>) -> (r: bytes::Bytes)
    ensures
        bytes_view(r) == v@,
{
    bytes::Bytes::from(v)
}

/// Appends `x` to `buf`, least significant byte first.
pub(crate) fn push_le_u16(buf: &mut Vec<u8>, x: u16)
    ensures
        final(buf)@ == old(buf)@ + le_u16(x),
{
    buf.push((x % 256) as u8);
    buf.push((x / 256) as u8);
    assert(final(buf)@ =~= old(buf)@ + le_u16(x));
}

/// Identifies every frame on the wire.
pub const SENTINEL_BYTE: u8 = 0xff;

/// `packet_type` of a frame sent to the control card.
pub const PACKET_TYPE_OUTBOUND: u8 = 0x68;

/// `packet_type` of a frame that answers a command.
pub const PACKET_TYPE_RESPONSE: u8 = 0xe8;

/// `card_type` carried by every frame.
pub const CARD_TYPE: u8 = 0x32;

/// Length of the fixed header; a shorter buffer is never a frame.
pub const HEADER_LEN: usize = 11;

/// Two bytes of `x`, least significant first.
pub open spec fn le_u16(x: u16) -> Seq<u8> {
    seq![(x % 256) as u8, (x / 256) as u8]
}

/// The value of two bytes read least significant first.
pub open spec fn u16_of_le(lo: u8, hi: u8) -> u16 {
    (lo as int + 256 * hi as int) as u16
}

/// The bytes of a frame with the given header fields and payload.
pub open spec fn frame_bytes(
    data_length: u16,
    reserved: u16,
    packet_type: u8,
    card_type: u8,
    card_id: u8,
    payload: Seq<u8>,
) -> Seq<u8> {
    seq![SENTINEL_BYTE, SENTINEL_BYTE, SENTINEL_BYTE, SENTINEL_BYTE] + le_u16(data_length) + le_u16(
        reserved,
    ) + seq![packet_type, card_type, card_id] + payload
}

/// Whether `data` is long enough to hold a frame.
pub open spec fn is_frame(data: Seq<u8>) -> bool {
    data.len() >= HEADER_LEN
}

/// The card id field of a buffer that `is_frame`.
pub open spec fn frame_card_id(data: Seq<u8>) -> u8 {
    data[10]
}

/// The bytes that follow the header of a buffer that `is_frame`.
pub open spec fn frame_payload(data: Seq<u8>) -> Seq<u8> {
    data.subrange(HEADER_LEN as int, data.len() as int)
}

/// One frame of the display card's Ethernet protocol.
#[derive(Debug, Clone)]
pub struct EthernetPacket {
    pub network_data_length: u32,
    pub reserved: u16,
    pub packet_type: u8,
    pub card_type: u8,
    pub card_id: u8,
    pub command_data: Vec<u8>,
}

/// Appends all of `bytes` to `buf`.
pub(crate) fn push_all(buf: &mut Vec<u8>, bytes: &[u8])
    ensures
        final(buf)@ == old(buf)@ + bytes@,
{
    let ghost start = buf@;
    let mut i: usize = 0;
    while i < bytes.len()
        invariant
            i <= bytes@.len(),
            buf@ == start + bytes@.subrange(0, i as int),
        decreases bytes@.len() - i,
    {
        buf.push(bytes[i]);
        i = i + 1;
        assert(buf@ =~= start + bytes@.subrange(0, i as int));
    }
    assert(bytes@.subrange(0, i as int) =~= bytes@);
}

impl EthernetPacket {
    /// The bytes that `encode` puts on the wire for this frame.
    pub open spec fn wire_bytes(&self) -> Seq<u8> {
        frame_bytes(
            self.network_data_length as u16,
            self.reserved,
            self.packet_type,
            self.card_type,
            self.card_id,
            self.command_data@,
        )
    }

    /// A frame that carries `command_data` to the card `card_id`.
    /// `network_data_length` counts the packet type, card type, card id and
    /// payload bytes, wrapped to 32 bits.
    pub fn new(card_id: u8, command_data: Vec<u8>) -> (r: Self)
        ensures
            r.network_data_length as int == (4 + command_data@.len()) % 0x1_0000_0000,
            r.reserved == 0,
            r.packet_type == PACKET_TYPE_OUTBOUND,
            r.card_type == CARD_TYPE,
            r.card_id == card_id,
            r.command_data@ == command_data@,
    {
        let len = command_data.len() as u64;
        let data_length = (((len % 0x1_0000_0000) + 4) % 0x1_0000_0000) as u32;
        proof {
            lemma_add_mod_noop_right(4, command_data@.len() as int, 0x1_0000_0000);
        }
        EthernetPacket {
            network_data_length: data_length,
            reserved: 0,
            packet_type: PACKET_TYPE_OUTBOUND,
            card_type: CARD_TYPE,
            card_id,
            command_data,
        }
    }

    /// The bytes of this frame, ready to be written to the card.
    fn to_vec(&self) -> (r: Vec<u8>)
        ensures
            r@ == self.wire_bytes(),
    {
        let mut buf: Vec<u8> = Vec::new();
        buf.push(SENTINEL_BYTE);
        buf.push(SENTINEL_BYTE);
        buf.push(SENTINEL_BYTE);
        buf.push(SENTINEL_BYTE);
        push_le_u16(&mut buf, self.network_data_length as u16);
        push_le_u16(&mut buf, self.reserved);
        buf.push(self.packet_type);
        buf.push(self.card_type);
        buf.push(self.card_id);
        push_all(&mut buf, self.command_data.as_slice());
        assert(buf@ =~= self.wire_bytes());
        buf
    }

    /// Encodes the frame into a buffer for transmission.
    pub fn encode(&self) -> (r: bytes::Bytes)
        ensures
            bytes_view(r) == self.wire_bytes(),
    {
        freeze(self.to_vec())
    }

    /// Decodes a received buffer; any bytes after the header are the payload.
    pub fn decode(data: &[u8]) -> (r: Result<Self, crate::error::ScoreboardError>)
        ensures
            r is Ok <==> is_frame(data@),
            r is Err ==> r == Err::<Self, _>(crate::error::ScoreboardError::Format),
            r matches Ok(p) ==> {
                &&& p.network_data_length == u16_of_le(data@[4], data@[5]) as u32
                &&& p.reserved == u16_of_le(data@[6], data@[7])
                &&& p.packet_type == data@[8]
                &&& p.card_type == data@[9]
                &&& p.card_id == frame_card_id(data@)
                &&& p.command_data@ == frame_payload(data@)
            },
    {
        if data.len() < HEADER_LEN {
            return Err(crate::error::ScoreboardError::Format);
        }
        let network_data_length = (data[4] as u16 + 256 * data[5] as u16) as u32;
        let reserved = data[6] as u16 + 256 * data[7] as u16;
        let mut command_data: Vec<u8> = Vec::new();
        let mut i: usize = HEADER_LEN;
        while i < data.len()
            invariant
                HEADER_LEN <= i <= data@.len(),
                command_data@ == data@.subrange(HEADER_LEN as int, i as int),
            decreases data@.len() - i,
        {
            command_data.push(data[i]);
            i = i + 1;
            assert(command_data@ =~= data@.subrange(HEADER_LEN as int, i as int));
        }
        Ok(EthernetPacket {
            network_data_length,
            reserved,
            packet_type: data[8],
            card_type: data[9],
            card_id: data[10],
            command_data,
        })
    }

    /// Whether this frame answers a command.
    pub fn is_response(&self) -> (r: bool)
        ensures
            r == (self.packet_type == PACKET_TYPE_RESPONSE),
    {
        self.packet_type == PACKET_TYPE_RESPONSE
    }
}

/// Reading back two bytes written least significant first gives the value.
pub proof fn lemma_le_u16_round_trip(x: u16)
    ensures
        u16_of_le(le_u16(x)[0], le_u16(x)[1]) == x,
{
    lemma_fundamental_div_mod(x as int, 256);
}

/// Decoding the bytes that `encode` writes for a packet gives back every
/// field of it: the header fields (the length wrapped to 16 bits, as it is
/// written), the card id and the payload.
pub proof fn lemma_frame_round_trip(p: EthernetPacket)
    ensures
        ({
            let b = p.wire_bytes();
            &&& is_frame(b)
            &&& u16_of_le(b[4], b[5]) == p.network_data_length as u16
            &&& u16_of_le(b[6], b[7]) == p.reserved
            &&& b[8] == p.packet_type
            &&& b[9] == p.card_type
            &&& frame_card_id(b) == p.card_id
            &&& frame_payload(b) == p.command_data@
        }),
{
    let b = p.wire_bytes();
    lemma_le_u16_round_trip(p.network_data_length as u16);
    lemma_le_u16_round_trip(p.reserved);
    assert(frame_payload(b) =~= p.command_data@);
}

} // verus!
