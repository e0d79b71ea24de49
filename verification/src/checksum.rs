//! Checksums that guard sensor frames: CRC-8 for the two-wire bus, and an additive
//! checksum for the serial framing of the particulate sensor.

use crc_all::Crc;
use vstd::prelude::*;

verus! {

/// Generator polynomial of the sensors' CRC-8.
pub const CRC8_POLYNOMIAL: u8 = 0x31;

/// Width of the CRC register in bits.
pub const CRC8_WIDTH: usize = 8;

/// Value the CRC register starts from.
pub const CRC8_INIT: u8 = 0xFF;

/// Mask xor-ed into the register when the CRC is read out.
pub const CRC8_XOR_OUT: u8 = 0x00;

/// One shift of the CRC register: the register moves left by one bit, and the
/// polynomial is xor-ed in when the bit that leaves was set.
pub open spec fn crc8_shift(register: u8, poly: u8) -> u8 {
    if register & 0x80 != 0 {
        (register << 1) ^ poly
    } else {
        register << 1
    }
}

/// The register after one byte is taken in: eight shifts.
pub open spec fn crc8_byte(register: u8, poly: u8) -> u8 {
    let r1 = crc8_shift(register, poly);
    let r2 = crc8_shift(r1, poly);
    let r3 = crc8_shift(r2, poly);
    let r4 = crc8_shift(r3, poly);
    let r5 = crc8_shift(r4, poly);
    let r6 = crc8_shift(r5, poly);
    let r7 = crc8_shift(r6, poly);
    crc8_shift(r7, poly)
}

/// The register after a sequence of bytes: it starts from `init`, and each byte
/// in turn is xor-ed into it and taken in.
pub open spec fn crc8_fold(poly: u8, init: u8, data: Seq<u8>) -> u8
    decreases data.len(),
{
    if data.len() == 0 {
        init
    } else {
        crc8_byte(crc8_fold(poly, init, data.drop_last()) ^ data.last(), poly)
    }
}

/// Runs `crc_all::Crc::<u8>` over `data`: `new` with the five parameters, one
/// `update` with the whole slice, then `finish`.
///
/// Trusted: for a register of full width that is not reflected, the result is
/// taken to be the fold of `crc8_fold` with `xorout` xor-ed in. The crate's table
/// holds, for each index, the index after eight shifts; `update` replaces the
/// register, which starts from `init`, by the table's entry at register xor byte;
/// `finish` xors `xorout` into the register. Other widths and reflected registers
/// are left out.
#[verifier::external_body]
fn crc_u8(poly: u8, width: usize, init: u8, xorout: u8, reflect: bool, data: &[u8]) -> (r: u8)
    requires
        width == 8,
        !reflect,
    ensures
        r == crc8_fold(poly, init, data@) ^ xorout,
{
    let mut crc = Crc::<u8>::new(poly, width, init, xorout, reflect);
    crc.update(data);
    crc.finish()
}

/// CRC-8 of a byte sequence as the sensors define it: polynomial 0x31, initial
/// value 0xFF, no reflection, no final xor. For each byte, the byte is xor-ed
/// into the register and the register is shifted left eight times, with the
/// polynomial xor-ed in whenever a set bit leaves.
pub open spec fn crc8_spec(bytes: Seq<u8>) -> u8 {
    crc8_fold(CRC8_POLYNOMIAL, CRC8_INIT, bytes) ^ CRC8_XOR_OUT
}

/// Computes the sensors' CRC-8 over `bytes`.
///
/// The result depends on the bytes alone: equal inputs give equal checksums.
pub fn crc8(bytes: &[u8]) -> (r: u8)
    ensures
        r == crc8_spec(bytes@),
{
    crc_u8(CRC8_POLYNOMIAL, CRC8_WIDTH, CRC8_INIT, CRC8_XOR_OUT, false, bytes)
}

/// Taking in one more byte: the register after `data` and then `byte`.
pub proof fn crc8_fold_push(poly: u8, init: u8, data: Seq<u8>, byte: u8)
    ensures
        crc8_fold(poly, init, data.push(byte)) == crc8_byte(
            crc8_fold(poly, init, data) ^ byte,
            poly,
        ),
{
    assert(data.push(byte).drop_last() == data);
}

/// The register after two zero bytes.
proof fn crc8_fold_of_zeros()
    ensures
        crc8_fold(0x31, 0xFF, seq![0x00u8, 0x00u8]) == 0x81,
{
    let d0 = Seq::<u8>::empty();
    let d1 = d0.push(0x00);
    assert(crc8_fold(0x31, 0xFF, d1) == 0xac) by {
        assert(crc8_byte(0xffu8 ^ 0x00u8, 0x31u8) == 0xacu8) by (bit_vector);
        crc8_fold_push(0x31, 0xFF, d0, 0x00);
    }
    let d2 = d1.push(0x00);
    assert(crc8_fold(0x31, 0xFF, d2) == 0x81) by {
        assert(crc8_byte(0xacu8 ^ 0x00u8, 0x31u8) == 0x81u8) by (bit_vector);
        crc8_fold_push(0x31, 0xFF, d1, 0x00);
    }
    assert(d2 =~= seq![0x00u8, 0x00u8]);
}

/// The register after the bytes 0xBE 0xEF.
proof fn crc8_fold_of_sheet_example()
    ensures
        crc8_fold(0x31, 0xFF, seq![0xBEu8, 0xEFu8]) == 0x92,
{
    let d0 = Seq::<u8>::empty();
    let d1 = d0.push(0xbe);
    assert(crc8_fold(0x31, 0xFF, d1) == 0x0c) by {
        assert(crc8_byte(0xffu8 ^ 0xbeu8, 0x31u8) == 0x0cu8) by (bit_vector);
        crc8_fold_push(0x31, 0xFF, d0, 0xbe);
    }
    let d2 = d1.push(0xef);
    assert(crc8_fold(0x31, 0xFF, d2) == 0x92) by {
        assert(crc8_byte(0x0cu8 ^ 0xefu8, 0x31u8) == 0x92u8) by (bit_vector);
        crc8_fold_push(0x31, 0xFF, d1, 0xef);
    }
    assert(d2 =~= seq![0xbeu8, 0xefu8]);
}

/// Taking in one more byte, with the registers before and after given.
proof fn crc8_fold_step(data: Seq<u8>, byte: u8, before: u8, after: u8)
    requires
        crc8_fold(0x31, 0xFF, data) == before,
        crc8_byte(before ^ byte, 0x31) == after,
    ensures
        crc8_fold(0x31, 0xFF, data.push(byte)) == after,
{
    crc8_fold_push(0x31, 0xFF, data, byte);
}

/// The register after three more of the digits "123456789".
proof fn crc8_fold_of_digits_1_to_3(data: Seq<u8>)
    requires
        crc8_fold(0x31, 0xFF, data) == 0xff,
    ensures
        crc8_fold(0x31, 0xFF, data.push(0x31).push(0x32).push(0x33)) == 0x2d,
{
    assert(crc8_byte(0xffu8 ^ 0x31u8, 0x31u8) == 0x58u8) by (bit_vector);
    crc8_fold_step(data, 0x31, 0xff, 0x58);
    assert(crc8_byte(0x58u8 ^ 0x32u8, 0x31u8) == 0x60u8) by (bit_vector);
    crc8_fold_step(data.push(0x31), 0x32, 0x58, 0x60);
    assert(crc8_byte(0x60u8 ^ 0x33u8, 0x31u8) == 0x2du8) by (bit_vector);
    crc8_fold_step(data.push(0x31).push(0x32), 0x33, 0x60, 0x2d);
}

/// The register after three more of the digits "123456789".
proof fn crc8_fold_of_digits_4_to_6(data: Seq<u8>)
    requires
        crc8_fold(0x31, 0xFF, data) == 0x2d,
    ensures
        crc8_fold(0x31, 0xFF, data.push(0x34).push(0x35).push(0x36)) == 0x16,
{
    assert(crc8_byte(0x2du8 ^ 0x34u8, 0x31u8) == 0xcbu8) by (bit_vector);
    crc8_fold_step(data, 0x34, 0x2d, 0xcb);
    assert(crc8_byte(0xcbu8 ^ 0x35u8, 0x31u8) == 0x9du8) by (bit_vector);
    crc8_fold_step(data.push(0x34), 0x35, 0xcb, 0x9d);
    assert(crc8_byte(0x9du8 ^ 0x36u8, 0x31u8) == 0x16u8) by (bit_vector);
    crc8_fold_step(data.push(0x34).push(0x35), 0x36, 0x9d, 0x16);
}

/// The register after three more of the digits "123456789".
proof fn crc8_fold_of_digits_7_to_9(data: Seq<u8>)
    requires
        crc8_fold(0x31, 0xFF, data) == 0x16,
    ensures
        crc8_fold(0x31, 0xFF, data.push(0x37).push(0x38).push(0x39)) == 0xf7,
{
    assert(crc8_byte(0x16u8 ^ 0x37u8, 0x31u8) == 0xb7u8) by (bit_vector);
    crc8_fold_step(data, 0x37, 0x16, 0xb7);
    assert(crc8_byte(0xb7u8 ^ 0x38u8, 0x31u8) == 0x54u8) by (bit_vector);
    crc8_fold_step(data.push(0x37), 0x38, 0xb7, 0x54);
    assert(crc8_byte(0x54u8 ^ 0x39u8, 0x31u8) == 0xf7u8) by (bit_vector);
    crc8_fold_step(data.push(0x37).push(0x38), 0x39, 0x54, 0xf7);
}

/// The register after the nine digits "123456789".
proof fn crc8_fold_of_digits()
    ensures
        crc8_fold(
            0x31,
            0xFF,
            seq![0x31u8, 0x32u8, 0x33u8, 0x34u8, 0x35u8, 0x36u8, 0x37u8, 0x38u8, 0x39u8],
        ) == 0xF7,
{
    let d0 = Seq::<u8>::empty();
    let d3 = d0.push(0x31).push(0x32).push(0x33);
    let d6 = d3.push(0x34).push(0x35).push(0x36);
    crc8_fold_of_digits_1_to_3(d0);
    crc8_fold_of_digits_4_to_6(d3);
    crc8_fold_of_digits_7_to_9(d6);
    assert(d6.push(0x37).push(0x38).push(0x39) =~= seq![
        0x31u8,
        0x32u8,
        0x33u8,
        0x34u8,
        0x35u8,
        0x36u8,
        0x37u8,
        0x38u8,
        0x39u8,
    ]);
}

/// The sensors' CRC-8 on three known inputs: two zero bytes, the bytes 0xBE 0xEF
/// of the sensors' data sheets, and the nine digits "123456789".
pub proof fn crc8_known_values()
    ensures
        crc8_spec(seq![0x00u8, 0x00u8]) == 0x81,
        crc8_spec(seq![0xBEu8, 0xEFu8]) == 0x92,
        crc8_spec(seq![0x31u8, 0x32u8, 0x33u8, 0x34u8, 0x35u8, 0x36u8, 0x37u8, 0x38u8, 0x39u8])
            == 0xF7,
{
    crc8_fold_of_zeros();
    crc8_fold_of_sheet_example();
    crc8_fold_of_digits();
    assert(0x81u8 ^ 0x00u8 == 0x81u8 && 0x92u8 ^ 0x00u8 == 0x92u8 && 0xF7u8 ^ 0x00u8 == 0xF7u8)
        by (bit_vector);
}

/// Sum of all bytes of a sequence, as an unbounded integer.
pub open spec fn byte_sum(bytes: Seq<u8>) -> int
    decreases bytes.len(),
{
    if bytes.len() == 0 {
        0
    } else {
        byte_sum(bytes.drop_last()) + bytes.last() as int
    }
}

/// Additive checksum of a serial frame: 255 minus the byte sum modulo 256.
pub open spec fn additive_checksum_spec(bytes: Seq<u8>) -> u8 {
    (255 - byte_sum(bytes) % 256) as u8
}

/// Computes the additive checksum of a serial frame.
pub fn additive_checksum(bytes: &[u8]) -> (r: u8)
    ensures
        r == additive_checksum_spec(bytes@),
{
    let mut sum: u8 = 0;
    let mut i: usize = 0;
    while i < bytes.len()
        invariant
            i <= bytes.len(),
            sum as int == byte_sum(bytes@.take(i as int)) % 256,
        decreases bytes.len() - i,
    {
        proof {
            let next = bytes@.take(i + 1);
            assert(next.drop_last() == bytes@.take(i as int));
            assert(next.last() == bytes@[i as int]);
        }
        sum = sum.wrapping_add(bytes[i]);
        i += 1;
    }
    proof {
        assert(bytes@.take(i as int) == bytes@);
    }
    255 - sum
}

/// Both checksums depend on the bytes alone: two sequences that hold the same
/// bytes have the same checksums.
pub proof fn checksums_are_deterministic(a: Seq<u8>, b: Seq<u8>)
    requires
        a.len() == b.len(),
        forall|i: int| 0 <= i < a.len() ==> a[i] == b[i],
    ensures
        crc8_spec(a) == crc8_spec(b),
        additive_checksum_spec(a) == additive_checksum_spec(b),
{
    assert(a =~= b);
}

/// Appending the additive checksum to a frame makes all its bytes sum to 255
/// modulo 256.
pub proof fn additive_checksum_completes(bytes: Seq<u8>)
    ensures
        byte_sum(bytes.push(additive_checksum_spec(bytes))) % 256 == 255,
{
    let framed = bytes.push(additive_checksum_spec(bytes));
    assert(framed.drop_last() == bytes);
}

} // verus!
