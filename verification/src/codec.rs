//! Byte-level codec of the sensor protocol: command frames going out, interleaved
//! response buffers coming in.
//!
//! A response carries one checksum byte after every two data bytes. Decoding strips
//! those bytes and reads the rest as big-endian values. Floating-point values are
//! kept as their IEEE-754 single-precision bit patterns.

use vstd::prelude::*;

verus! {

/// Why a response buffer could not be decoded.
#[derive(Clone, Copy, Debug, PartialEq, Eq, Structural)]
pub enum ProtocolError {
    /// The buffer holds fewer bytes than the response layout needs.
    ShortResponse { expected: usize, actual: usize },
}

/// The two bytes of a 16-bit value, most significant first.
pub open spec fn be_bytes_u16(value: u16) -> Seq<u8> {
    seq![(value / 256) as u8, (value % 256) as u8]
}

/// The 16-bit value whose big-endian bytes are `hi`, `lo`.
pub open spec fn u16_from_be(hi: u8, lo: u8) -> u16 {
    (hi as int * 256 + lo as int) as u16
}

/// The four bytes of a 32-bit value, most significant first.
pub open spec fn be_bytes_u32(value: u32) -> Seq<u8> {
    seq![
        (value / 0x100_0000) as u8,
        (value / 0x1_0000 % 256) as u8,
        (value / 0x100 % 256) as u8,
        (value % 256) as u8,
    ]
}

/// The 32-bit value whose big-endian bytes are `b0` to `b3`.
pub open spec fn u32_from_be(b0: u8, b1: u8, b2: u8, b3: u8) -> u32 {
    (b0 as int * 0x100_0000 + b1 as int * 0x1_0000 + b2 as int * 0x100 + b3 as int) as u32
}

/// The 32-bit big-endian value that starts at `offset` in `bytes`.
pub open spec fn be_u32_at(bytes: Seq<u8>, offset: int) -> u32 {
    u32_from_be(bytes[offset], bytes[offset + 1], bytes[offset + 2], bytes[offset + 3])
}

/// Splits a 16-bit value into its big-endian bytes.
pub fn u16_to_be_bytes(value: u16) -> (r: [u8; 2])
    ensures
        r@ == be_bytes_u16(value),
{
    assert(value >> 8 == value / 256 && (value >> 8) < 256) by (bit_vector);
    assert(value & 0xff == value % 256) by (bit_vector);
    let r: [u8; 2] = [(value >> 8) as u8, (value & 0xff) as u8];
    assert(r@ =~= be_bytes_u16(value));
    r
}

/// Joins two big-endian bytes into a 16-bit value.
pub fn u16_from_be_bytes(hi: u8, lo: u8) -> (r: u16)
    ensures
        r == u16_from_be(hi, lo),
{
    assert(((hi as u16) << 8) | (lo as u16) == (hi as u16) * 256 + (lo as u16)) by (bit_vector);
    ((hi as u16) << 8) | (lo as u16)
}

/// Joins four big-endian bytes into a 32-bit value.
pub fn u32_from_be_bytes(b0: u8, b1: u8, b2: u8, b3: u8) -> (r: u32)
    ensures
        r == u32_from_be(b0, b1, b2, b3),
{
    assert(((b0 as u32) << 24) | ((b1 as u32) << 16) | ((b2 as u32) << 8) | (b3 as u32) == (
    b0 as u32) * 0x100_0000 + (b1 as u32) * 0x1_0000 + (b2 as u32) * 0x100 + (b3 as u32))
        by (bit_vector);
    ((b0 as u32) << 24) | ((b1 as u32) << 16) | ((b2 as u32) << 8) | (b3 as u32)
}

/// Reading back the big-endian bytes of a 16-bit value gives the value.
pub proof fn u16_be_round_trip(value: u16)
    ensures
        u16_from_be(be_bytes_u16(value)[0], be_bytes_u16(value)[1]) == value,
{
}

/// Reading back the big-endian bytes of a 32-bit value gives the value.
pub proof fn u32_be_round_trip(value: u32)
    ensures
        be_bytes_u32(value).len() == 4,
        be_u32_at(be_bytes_u32(value), 0) == value,
{
}

/// The frame of a command: the command word, then, if the command takes an
/// argument, the argument and the CRC-8 of the argument's two bytes.
pub open spec fn frame_spec(command: u16, argument: Option<u16>) -> Seq<u8> {
    match argument {
        None => be_bytes_u16(command),
        Some(value) => be_bytes_u16(command) + be_bytes_u16(value).push(
            crate::checksum::crc8_spec(be_bytes_u16(value)),
        ),
    }
}

/// Builds the frame of a command that takes no argument: two bytes, no checksum.
pub fn command_frame(command: u16) -> (r: [u8; 2])
    ensures
        r@ == frame_spec(command, None),
{
    u16_to_be_bytes(command)
}

/// Puts a frame together from a command word, its argument and the checksum
/// byte that goes behind the argument.
pub fn frame_with_checksum(command: u16, argument: u16, checksum: u8) -> (r: [u8; 5])
    ensures
        r@ == be_bytes_u16(command) + be_bytes_u16(argument).push(checksum),
{
    let word = u16_to_be_bytes(command);
    let value = u16_to_be_bytes(argument);
    let r: [u8; 5] = [word[0], word[1], value[0], value[1], checksum];
    assert(r@ =~= be_bytes_u16(command) + be_bytes_u16(argument).push(checksum));
    r
}

/// Builds the frame of a command with its argument: five bytes, the last one the
/// CRC-8 of the argument bytes.
pub fn argument_frame(command: u16, argument: u16) -> (r: [u8; 5])
    ensures
        r@ == frame_spec(command, Some(argument)),
{
    let value = u16_to_be_bytes(argument);
    let crc = crate::checksum::crc8(value.as_slice());
    frame_with_checksum(command, argument, crc)
}

/// Builds the frame of a command, with or without an argument.
pub fn build_frame(command: u16, argument: Option<u16>) -> (r: Vec<u8>)
    ensures
        r@ == frame_spec(command, argument),
{
    let mut r: Vec<u8> = Vec::new();
    match argument {
        None => {
            let frame = command_frame(command);
            r.push(frame[0]);
            r.push(frame[1]);
            assert(r@ =~= frame@);
        },
        Some(value) => {
            let frame = argument_frame(command, value);
            r.push(frame[0]);
            r.push(frame[1]);
            r.push(frame[2]);
            r.push(frame[3]);
            r.push(frame[4]);
            assert(r@ =~= frame@);
        },
    }
    r
}

/// A frame is two bytes long without an argument and five bytes long with one, and
/// always starts with the command word.
pub proof fn frame_layout(command: u16, argument: Option<u16>)
    ensures
        argument is None ==> frame_spec(command, argument).len() == 2,
        argument is Some ==> frame_spec(command, argument).len() == 5,
        u16_from_be(frame_spec(command, argument)[0], frame_spec(command, argument)[1]) == command,
        argument matches Some(value) ==> u16_from_be(
            frame_spec(command, argument)[2],
            frame_spec(command, argument)[3],
        ) == value,
        argument is Some ==> frame_spec(command, argument)[4] == crate::checksum::crc8_spec(
            frame_spec(command, argument).subrange(2, 4),
        ),
{
    match argument {
        None => {},
        Some(value) => {
            let frame = frame_spec(command, argument);
            assert(frame.subrange(2, 4) =~= be_bytes_u16(value));
        },
    }
}

/// Whether position `index` of an interleaved buffer holds data. Every third byte
/// is a checksum.
pub open spec fn is_data_index(index: int) -> bool {
    (index + 1) % 3 != 0
}

/// Where the byte at position `index` of an interleaved buffer lands once the
/// checksum bytes are gone.
pub open spec fn new_index(index: int) -> int {
    index / 3 * 2 + index % 3
}

/// How many data bytes an interleaved buffer of `len` bytes holds.
pub open spec fn data_len(len: nat) -> nat {
    len / 3 * 2 + len % 3
}

/// The data bytes of an interleaved buffer: the bytes at data positions, in the
/// order they stand in the buffer.
pub open spec fn strip_crc(buffer: Seq<u8>) -> Seq<u8>
    decreases buffer.len(),
{
    if buffer.len() == 0 {
        Seq::empty()
    } else if is_data_index(buffer.len() - 1) {
        strip_crc(buffer.drop_last()).push(buffer.last())
    } else {
        strip_crc(buffer.drop_last())
    }
}

/// Computes where a data byte lands once the checksum bytes are gone.
pub fn calculate_new_index(index: usize) -> (r: usize)
    ensures
        r == new_index(index as int),
        r <= index,
{
    (index / 3 * 2) + (index % 3)
}

/// The stripped buffer has two bytes for every full three of the input, and each
/// data byte sits at its new index.
pub proof fn strip_crc_layout(buffer: Seq<u8>)
    ensures
        strip_crc(buffer).len() == data_len(buffer.len()),
        forall|i: int|
            0 <= i < buffer.len() && is_data_index(i) ==> 0 <= #[trigger] new_index(i)
                < strip_crc(buffer).len() && strip_crc(buffer)[new_index(i)] == buffer[i],
    decreases buffer.len(),
{
    if buffer.len() > 0 {
        let rest = buffer.drop_last();
        strip_crc_layout(rest);
        let last = buffer.len() - 1;
        assert forall|i: int| 0 <= i < buffer.len() && is_data_index(i) implies 0 <= #[trigger] new_index(i)
            < strip_crc(buffer).len() && strip_crc(buffer)[new_index(i)] == buffer[i] by {
            if i < last {
                assert(rest[i] == buffer[i]);
                assert(new_index(i) < strip_crc(rest).len());
            }
        }
    }
}

/// Stripping keeps the data bytes in order: of two data positions, the earlier
/// one lands first.
pub proof fn new_index_is_increasing(i: int, j: int)
    requires
        0 <= i < j,
        is_data_index(i),
        is_data_index(j),
    ensures
        new_index(i) < new_index(j),
{
}

/// Every byte of the stripped buffer comes from a data position of the input.
pub proof fn strip_crc_has_only_data(buffer: Seq<u8>, k: int)
    requires
        0 <= k < strip_crc(buffer).len(),
    ensures
        ({
            let i = k / 2 * 3 + k % 2;
            &&& 0 <= i < buffer.len()
            &&& is_data_index(i)
            &&& new_index(i) == k
            &&& strip_crc(buffer)[k] == buffer[i]
        }),
{
    strip_crc_layout(buffer);
    let i = k / 2 * 3 + k % 2;
    assert(new_index(i) == k);
}

/// A buffer of `3n` bytes strips to `2n` bytes.
pub proof fn strip_crc_of_whole_words(buffer: Seq<u8>, n: nat)
    requires
        buffer.len() == 3 * n,
    ensures
        strip_crc(buffer).len() == 2 * n,
{
    strip_crc_layout(buffer);
}

/// Strips the checksum bytes from an interleaved buffer.
pub fn remove_crc_bytes(buffer: &[u8]) -> (r: Vec<u8>)
    ensures
        r@ == strip_crc(buffer@),
{
    let mut r: Vec<u8> = Vec::new();
    let mut index: usize = 0;
    while index < buffer.len()
        invariant
            index <= buffer.len(),
            r@ == strip_crc(buffer@.take(index as int)),
        decreases buffer.len() - index,
    {
        proof {
            let next = buffer@.take(index + 1);
            assert(next.drop_last() == buffer@.take(index as int));
            assert(next.last() == buffer@[index as int]);
        }
        if (index + 1) % 3 != 0 {
            r.push(buffer[index]);
        }
        index += 1;
    }
    proof {
        assert(buffer@.take(index as int) == buffer@);
    }
    r
}

/// A run of `len` zero bytes.
pub open spec fn zeros(len: int) -> Seq<u8> {
    Seq::new(len as nat, |i: int| 0u8)
}

/// Strips the checksum bytes from an interleaved buffer into a block of 60 bytes,
/// zero-filled behind the data. The buffer holds at most 90 bytes, which is what
/// fills the block.
pub fn remove_crc_bits(buffer: &[u8]) -> (r: [u8; 60])
    requires
        buffer.len() <= 90,
    ensures
        r@ == strip_crc(buffer@) + zeros(60 - data_len(buffer@.len())),
{
    let mut new_buffer = [0u8; 60];
    let mut index: usize = 0;
    while index < buffer.len()
        invariant
            index <= buffer.len() <= 90,
            new_buffer@ == strip_crc(buffer@.take(index as int)) + zeros(
                60 - data_len(index as nat),
            ),
        decreases buffer.len() - index,
    {
        proof {
            let next = buffer@.take(index + 1);
            assert(next.drop_last() == buffer@.take(index as int));
            assert(next.last() == buffer@[index as int]);
            strip_crc_layout(buffer@.take(index as int));
            strip_crc_layout(next);
        }
        if (index + 1) % 3 != 0 {
            let new_index = calculate_new_index(index);
            new_buffer[new_index] = buffer[index];
        }
        index += 1;
    }
    proof {
        assert(buffer@.take(index as int) == buffer@);
    }
    new_buffer
}

/// The 16-bit value that a three-byte response carries in its first two bytes.
pub open spec fn parse_u16_spec(buffer: Seq<u8>) -> u16 {
    u16_from_be(buffer[0], buffer[1])
}

/// Decodes a three-byte response: a big-endian 16-bit value and its checksum byte.
/// The checksum byte has to be there and is not looked at.
pub fn parse_u16(buffer: &[u8]) -> (r: Result<u16, ProtocolError>)
    ensures
        buffer@.len() >= 3 ==> r == Ok::<u16, ProtocolError>(parse_u16_spec(buffer@)),
        buffer@.len() < 3 ==> r == Err::<u16, ProtocolError>(
            (ProtocolError::ShortResponse { expected: 3, actual: buffer@.len() as usize }),
        ),
{
    if buffer.len() < 3 {
        return Err(ProtocolError::ShortResponse { expected: 3, actual: buffer.len() });
    }
    Ok(u16_from_be_bytes(buffer[0], buffer[1]))
}

/// The 32-bit value that a six-byte response carries: its four data bytes, read
/// big-endian once the two checksum bytes are stripped.
pub open spec fn parse_u32_spec(buffer: Seq<u8>) -> u32 {
    be_u32_at(strip_crc(buffer), 0)
}

/// In a buffer of at least six bytes, the stripped value is made of the bytes at
/// positions 0, 1, 3 and 4.
pub proof fn parse_u32_reads_data_bytes(buffer: Seq<u8>)
    requires
        buffer.len() >= 6,
    ensures
        parse_u32_spec(buffer) == u32_from_be(buffer[0], buffer[1], buffer[3], buffer[4]),
{
    strip_crc_layout(buffer);
    assert(new_index(0) == 0 && new_index(1) == 1 && new_index(3) == 2 && new_index(4) == 3);
}

/// Decodes a six-byte response: a big-endian 32-bit value split into two words,
/// each followed by its checksum byte. The checksum bytes are not looked at.
pub fn parse_u32(buffer: &[u8]) -> (r: Result<u32, ProtocolError>)
    ensures
        buffer@.len() >= 6 ==> r == Ok::<u32, ProtocolError>(parse_u32_spec(buffer@)),
        buffer@.len() < 6 ==> r == Err::<u32, ProtocolError>(
            (ProtocolError::ShortResponse { expected: 6, actual: buffer@.len() as usize }),
        ),
{
    if buffer.len() < 6 {
        return Err(ProtocolError::ShortResponse { expected: 6, actual: buffer.len() });
    }
    proof {
        parse_u32_reads_data_bytes(buffer@);
    }
    Ok(u32_from_be_bytes(buffer[0], buffer[1], buffer[3], buffer[4]))
}

/// Whether bit `n` of `input` is set. No bit is set at a position of 32 or more.
pub open spec fn bit_is_set(input: u32, n: u8) -> bool {
    n < 32 && input & (1u32 << n) != 0
}

/// Tells whether bit `n` of a status word is set; `false` for any position that a
/// 32-bit word does not have.
pub fn get_bit_at(input: u32, n: u8) -> (r: bool)
    ensures
        r == bit_is_set(input, n),
        n >= 32 ==> !r,
{
    if n < 32 {
        input & (1u32 << n) != 0
    } else {
        false
    }
}

/// A set bit is one that contributes its power of two to the word.
pub proof fn bit_is_set_means_binary_digit(input: u32, n: u8)
    requires
        n < 32,
    ensures
        bit_is_set(input, n) == ((input >> n) % 2 == 1),
{
    assert((input & (1u32 << n) != 0) == ((input >> n) % 2 == 1)) by (bit_vector)
        requires
            n < 32,
    ;
}

/// Names the state that a fault bit of the status word reports.
pub fn get_device_status(input: u32, n: u8) -> (r: &'static str)
    ensures
        bit_is_set(input, n) ==> r@ == "error"@,
        !bit_is_set(input, n) ==> r@ == "ok"@,
{
    if get_bit_at(input, n) == false {
        "ok"
    } else {
        "error"
    }
}

/// Whether every three-byte word of a buffer ends in the CRC-8 of its two data
/// bytes, and the buffer holds whole words only.
pub open spec fn checksums_valid_spec(buffer: Seq<u8>) -> bool {
    &&& buffer.len() % 3 == 0
    &&& forall|k: int|
        0 <= k < buffer.len() / 3 ==> buffer[3 * k + 2] == crate::checksum::crc8_spec(
            #[trigger] buffer.subrange(3 * k, 3 * k + 2),
        )
}

/// Recomputes the checksum of every word of a response buffer and compares it with
/// the byte received. Decoding never does this by itself.
pub fn checksums_valid(buffer: &[u8]) -> (r: bool)
    ensures
        r == checksums_valid_spec(buffer@),
{
    if buffer.len() % 3 != 0 {
        return false;
    }
    let words = buffer.len() / 3;
    let mut word: usize = 0;
    while word < words
        invariant
            word <= words,
            3 * words == buffer.len(),
            forall|k: int|
                0 <= k < word ==> buffer@[3 * k + 2] == crate::checksum::crc8_spec(
                    #[trigger] buffer@.subrange(3 * k, 3 * k + 2),
                ),
        decreases words - word,
    {
        let start = 3 * word;
        let data = vstd::slice::slice_subrange(buffer, start, start + 2);
        if crate::checksum::crc8(data) != buffer[start + 2] {
            return false;
        }
        word += 1;
    }
    true
}

/// The argument of a frame and the checksum behind it form a word that passes
/// the checksum test.
pub proof fn frame_argument_is_valid(command: u16, argument: u16)
    ensures
        checksums_valid_spec(frame_spec(command, Some(argument)).subrange(2, 5)),
{
    let word = frame_spec(command, Some(argument)).subrange(2, 5);
    assert(word.subrange(0, 2) =~= be_bytes_u16(argument));
    assert forall|k: int| 0 <= k < word.len() / 3 implies word[3 * k + 2]
        == crate::checksum::crc8_spec(#[trigger] word.subrange(3 * k, 3 * k + 2)) by {
        assert(k == 0);
    }
}

/// An interleaved buffer made from an even number of data bytes: after every two
/// of them comes the byte `fill`, standing for a checksum.
pub open spec fn interleave(data: Seq<u8>, fill: u8) -> Seq<u8> {
    Seq::new(
        data.len() / 2 * 3,
        |i: int|
            if is_data_index(i) {
                data[new_index(i)]
            } else {
                fill
            },
    )
}

/// Stripping an interleaved buffer gives back the data it was made from, whatever
/// stands in the checksum positions.
pub proof fn strip_crc_of_interleave(data: Seq<u8>, fill: u8)
    requires
        data.len() % 2 == 0,
    ensures
        strip_crc(interleave(data, fill)) == data,
{
    let buffer = interleave(data, fill);
    strip_crc_layout(buffer);
    assert forall|k: int| 0 <= k < data.len() implies strip_crc(buffer)[k] == data[k] by {
        strip_crc_has_only_data(buffer, k);
    }
    assert(strip_crc(buffer) =~= data);
}

/// A 32-bit pattern, such as that of a float, survives the wire: its big-endian
/// bytes, interleaved with any checksum byte and decoded again, give the same bits.
pub proof fn u32_round_trip(bits: u32, fill: u8)
    ensures
        interleave(be_bytes_u32(bits), fill).len() == 6,
        parse_u32_spec(interleave(be_bytes_u32(bits), fill)) == bits,
{
    strip_crc_of_interleave(be_bytes_u32(bits), fill);
    u32_be_round_trip(bits);
}

} // verus!
