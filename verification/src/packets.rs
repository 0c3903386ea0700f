//! Wire formats: the video fragment that arrives in one datagram and the
//! control command that starts the stream.

use vstd::prelude::*;
use byteorder::{LittleEndian, WriteBytesExt};
use crate::bytes::append_bytes;

verus! {

/// Bytes of fragment header in front of the payload.
pub const HEADER_LEN: usize = 4;

/// Bytes of image data carried by one fragment.
pub const PAYLOAD_LEN: usize = 1444;

/// Bytes of one fragment on the wire.
pub const PACKET_LEN: usize = 1448;

/// One of the console's two video outputs.
#[derive(Clone, Copy, Debug, PartialEq, Eq, Structural)]
pub enum Screen {
    Top,
    Bottom,
}

/// One fragment of a frame, as decoded from a datagram.
#[derive(Clone, Copy, Debug)]
pub struct RemotePlayPacket {
    pub frame_id: u8,
    pub flags: u8,
    pub format: u8,
    pub packet_id: u8,
    pub image_data: [u8; 1444],
}

/// The screen that a flags byte names: a low nibble of exactly 1 is the top
/// screen, every other value the bottom one.
pub open spec fn screen_of(flags: u8) -> Screen {
    if flags & 0x0f == 1 {
        Screen::Top
    } else {
        Screen::Bottom
    }
}

/// Whether a flags byte carries the end-of-frame marker.
///
/// The marker is read from the low nibble shifted right by four bits, so no
/// flags value carries it: see `lemma_marker_never_set`.
pub open spec fn end_of_frame_of(flags: u8) -> bool {
    ((flags & 0x0f) >> 4) == 1
}

/// Masking to the low nibble leaves nothing above bit 3, so the shifted value
/// is zero for every flags byte.
pub proof fn lemma_marker_never_set(flags: u8)
    ensures
        !end_of_frame_of(flags),
{
    assert(((flags & 0x0f) >> 4) == 0) by (bit_vector);
}

impl RemotePlayPacket {
    /// Whether this fragment carries the end-of-frame marker.
    pub fn is_end_of_frame(&self) -> (last: bool)
        ensures
            last == end_of_frame_of(self.flags),
    {
        ((self.flags & 0x0f) >> 4) == 1
    }

    /// The screen that this fragment belongs to.
    pub fn screen(&self) -> (screen: Screen)
        ensures
            screen == screen_of(self.flags),
    {
        if self.flags & 0x0f == 1 {
            Screen::Top
        } else {
            Screen::Bottom
        }
    }
}

/// A fragment as it stands on the wire: four header bytes and the payload.
pub struct Wire {
    pub frame_id: u8,
    pub flags: u8,
    pub format: u8,
    pub packet_id: u8,
    pub payload: Seq<u8>,
}

/// Reading a fragment off the front of a datagram: the first four bytes are
/// the header, the next 1444 the payload, and what follows is not looked at.
/// A datagram of fewer than 1448 bytes holds no fragment.
pub open spec fn parse(bytes: Seq<u8>) -> Option<Wire> {
    if bytes.len() < 1448 {
        None
    } else {
        Some(
            Wire {
                frame_id: bytes[0],
                flags: bytes[1],
                format: bytes[2],
                packet_id: bytes[3],
                payload: bytes.subrange(4, 1448),
            },
        )
    }
}

/// The bytes of a fragment: the header, then the payload.
pub open spec fn unparse(w: Wire) -> Seq<u8> {
    seq![w.frame_id, w.flags, w.format, w.packet_id] + w.payload
}

/// Why a datagram holds no fragment: it has only `available` bytes.
#[derive(Clone, Copy, Debug, PartialEq, Eq, Structural)]
pub struct DecodeError {
    pub available: usize,
}

impl View for RemotePlayPacket {
    type V = Wire;

    open spec fn view(&self) -> Wire {
        Wire {
            frame_id: self.frame_id,
            flags: self.flags,
            format: self.format,
            packet_id: self.packet_id,
            payload: self.image_data@,
        }
    }
}

impl RemotePlayPacket {
    /// Decodes the fragment at the front of a datagram.
    pub fn decode(bytes: &[u8]) -> (r: Result<RemotePlayPacket, DecodeError>)
        ensures
            match r {
                Ok(p) => parse(bytes@) == Some(p@),
                Err(e) => parse(bytes@) is None && e.available == bytes.len(),
            },
    {
        if bytes.len() < PACKET_LEN {
            return Err(DecodeError { available: bytes.len() });
        }
        let mut image_data: [u8; 1444] = [0u8; 1444];
        let mut i: usize = 0;
        while i < PAYLOAD_LEN
            invariant
                i <= PAYLOAD_LEN,
                bytes.len() >= PACKET_LEN,
                forall|j: int| 0 <= j < i ==> image_data@[j] == bytes@[j + 4],
            decreases PAYLOAD_LEN - i,
        {
            image_data[i] = bytes[i + HEADER_LEN];
            i += 1;
        }
        assert(image_data@ =~= bytes@.subrange(4, 1448));
        Ok(
            RemotePlayPacket {
                frame_id: bytes[0],
                flags: bytes[1],
                format: bytes[2],
                packet_id: bytes[3],
                image_data,
            },
        )
    }

    /// The packet's bytes on the wire.
    pub fn encode(&self) -> (bytes: Vec<u8>)
        ensures
            bytes@ == unparse(self@),
            bytes@.len() == 1448,
    {
        let mut bytes: Vec<u8> = Vec::with_capacity(PACKET_LEN);
        bytes.push(self.frame_id);
        bytes.push(self.flags);
        bytes.push(self.format);
        bytes.push(self.packet_id);
        assert(bytes@ =~= seq![self.frame_id, self.flags, self.format, self.packet_id]);
        append_bytes(&mut bytes, self.image_data.as_slice());
        bytes
    }
}

/// Decoding a datagram and encoding the result gives back the datagram's
/// first 1448 bytes: the whole of it where it has exactly that many.
pub proof fn lemma_decode_then_encode(bytes: Seq<u8>)
    requires
        bytes.len() >= 1448,
    ensures
        parse(bytes) is Some,
        unparse(parse(bytes)->0) == bytes.subrange(0, 1448),
        bytes.len() == 1448 ==> unparse(parse(bytes)->0) == bytes,
{
    assert(unparse(parse(bytes)->0) =~= bytes.subrange(0, 1448));
    if bytes.len() == 1448 {
        assert(bytes.subrange(0, 1448) =~= bytes);
    }
}

/// Encoding a fragment and decoding the result gives back the fragment, field
/// for field.
pub proof fn lemma_encode_then_decode(w: Wire)
    requires
        w.payload.len() == 1444,
    ensures
        parse(unparse(w)) == Some(w),
{
    let bytes = unparse(w);
    assert(bytes.subrange(4, 1448) =~= w.payload);
}

/// A datagram holds a fragment exactly when it has at least 1448 bytes.
pub proof fn lemma_short_datagram_is_rejected(bytes: Seq<u8>)
    ensures
        parse(bytes) is None <==> bytes.len() < 1448,
{
}

/// The command that configures the console's capture and starts the stream.
#[derive(Clone, Copy, Debug)]
pub struct RemotePlayControlPacket {
    pub magic: u32,
    pub sequence: u32,
    pub packet_type: u32,
    pub command: u32,
    pub args: [u32; 16],
}

/// What the viewer asks of the console.
pub struct StreamingConfig {
    pub host: String,
    pub priority_screen: Screen,
    pub priority_factor: u32,
    pub compression_quality: u32,
    pub qos: u32,
}

/// The word that opens every control command.
pub const NTR_MAGIC: u32 = 0x12345678;

/// The sequence number of the command that starts the stream.
pub const START_SEQUENCE: u32 = 3000;

/// The command code that starts the stream.
pub const START_COMMAND: u32 = 901;

/// Bytes of a control command on the wire.
pub const CONTROL_LEN: usize = 84;

/// The four bytes of a word, least significant first.
pub open spec fn le_bytes(v: u32) -> Seq<u8> {
    seq![
        (v % 256) as u8,
        ((v / 256) % 256) as u8,
        ((v / 65536) % 256) as u8,
        (v / 16777216) as u8,
    ]
}

/// The bytes of a run of words, each least significant byte first.
pub open spec fn words_le(words: Seq<u32>) -> Seq<u8>
    decreases words.len(),
{
    if words.len() == 0 {
        Seq::empty()
    } else {
        words_le(words.drop_last()) + le_bytes(words.last())
    }
}

/// The first argument of the start command: bit 8 set where the top screen
/// has priority, or-ed with the priority factor.
pub open spec fn mode_word(screen: Screen, factor: u32) -> u32 {
    match screen {
        Screen::Top => 0x100u32 | factor,
        Screen::Bottom => 0u32 | factor,
    }
}

/// The sixteen arguments of the start command: the mode, the compression
/// quality, the bandwidth budget, and zeros.
pub open spec fn start_args(screen: Screen, factor: u32, quality: u32, qos: u32) -> Seq<u32> {
    Seq::new(
        16,
        |i: int|
            if i == 0 {
                mode_word(screen, factor)
            } else if i == 1 {
                quality
            } else if i == 2 {
                qos
            } else {
                0u32
            },
    )
}

/// Appends a word to `buf`, least significant byte first, with byteorder's
/// `WriteBytesExt::write_u32::<LittleEndian>`.
///
/// Not proved: that the call appends exactly the four bytes of `le_bytes` and
/// leaves what `buf` held in place. Writing into a `Vec` does not fail.
#[verifier::external_body]
fn write_word_le(buf: &mut Vec<u8>, value: u32)
    ensures
        final(buf)@ == old(buf)@ + le_bytes(value),
{
    let _ = buf.write_u32::<LittleEndian>(value);
}

impl RemotePlayControlPacket {
    /// The command's bytes on the wire.
    pub open spec fn wire(self) -> Seq<u8> {
        le_bytes(self.magic) + le_bytes(self.sequence) + le_bytes(self.packet_type) + le_bytes(
            self.command,
        ) + words_le(self.args@) + le_bytes(0)
    }

    /// Encodes the command: the magic, the sequence number, the packet type,
    /// the command code, the sixteen arguments and a zero word, each as four
    /// bytes, least significant first.
    pub fn raw_bytes(&self) -> (bytes: Vec<u8>)
        ensures
            bytes@ == self.wire(),
            bytes@.len() == 84,
    {
        let mut buf: Vec<u8> = Vec::new();
        write_word_le(&mut buf, self.magic);
        write_word_le(&mut buf, self.sequence);
        write_word_le(&mut buf, self.packet_type);
        write_word_le(&mut buf, self.command);
        let ghost head = buf@;
        assert(head =~= le_bytes(self.magic) + le_bytes(self.sequence) + le_bytes(self.packet_type)
            + le_bytes(self.command));
        let mut i: usize = 0;
        while i < 16
            invariant
                i <= 16,
                buf@ == head + words_le(self.args@.subrange(0, i as int)),
                buf@.len() == 16 + 4 * i,
            decreases 16 - i,
        {
            write_word_le(&mut buf, self.args[i]);
            proof {
                let before = self.args@.subrange(0, i as int);
                let after = self.args@.subrange(0, i + 1);
                assert(after.drop_last() =~= before);
                assert(after.last() == self.args@[i as int]);
                assert(buf@ =~= head + words_le(after));
            }
            i += 1;
        }
        assert(self.args@.subrange(0, 16) =~= self.args@);
        write_word_le(&mut buf, 0);
        buf
    }
}

/// Builds the command that starts the stream with the given configuration.
pub fn make_init_remote_play_packet(config: &StreamingConfig) -> (packet: RemotePlayControlPacket)
    ensures
        packet.magic == NTR_MAGIC,
        packet.sequence == START_SEQUENCE,
        packet.packet_type == 0,
        packet.command == START_COMMAND,
        packet.args@ == start_args(
            config.priority_screen,
            config.priority_factor,
            config.compression_quality,
            config.qos,
        ),
{
    let screen_bits: u32 = match config.priority_screen {
        Screen::Top => 0x100,
        Screen::Bottom => 0,
    };
    let mode: u32 = screen_bits | config.priority_factor;
    let mut args: [u32; 16] = [0u32; 16];
    args[0] = mode;
    args[1] = config.compression_quality;
    args[2] = config.qos;
    assert(args@ =~= start_args(
        config.priority_screen,
        config.priority_factor,
        config.compression_quality,
        config.qos,
    ));
    RemotePlayControlPacket {
        magic: NTR_MAGIC,
        sequence: START_SEQUENCE,
        packet_type: 0,
        command: START_COMMAND,
        args,
    }
}

} // verus!
