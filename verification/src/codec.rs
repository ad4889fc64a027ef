//! Byte framing for one bus transaction: bit order, checksum, and the
//! round-trip laws between them.
//!
//! A transaction's payload is `[device-select byte, command byte, data...]`;
//! the frame appends a CRC over the payload. Each byte goes onto the wire
//! most significant bit first, one line level per bit cell (the open-drain
//! line is released for a 1 and sunk for a 0). The CRC polynomial and its
//! initial value are protocol configuration, not constants of this module.

use vstd::prelude::*;

use crate::BusError;

verus! {

/// The eight bits of a byte, most significant first.
pub open spec fn spec_byte_bits(b: u8) -> Seq<bool> {
    seq![
        b & 0x80u8 != 0u8,
        b & 0x40u8 != 0u8,
        b & 0x20u8 != 0u8,
        b & 0x10u8 != 0u8,
        b & 0x08u8 != 0u8,
        b & 0x04u8 != 0u8,
        b & 0x02u8 != 0u8,
        b & 0x01u8 != 0u8,
    ]
}

/// The byte eight bits stand for, most significant first.
pub open spec fn spec_bits_byte(bits: Seq<bool>) -> u8
    recommends
        bits.len() == 8,
{
    (if bits[0] { 0x80u8 } else { 0u8 }) | (if bits[1] { 0x40u8 } else { 0u8 }) | (if bits[2] {
        0x20u8
    } else {
        0u8
    }) | (if bits[3] { 0x10u8 } else { 0u8 }) | (if bits[4] { 0x08u8 } else { 0u8 }) | (if bits[5] {
        0x04u8
    } else {
        0u8
    }) | (if bits[6] { 0x02u8 } else { 0u8 }) | (if bits[7] { 0x01u8 } else { 0u8 })
}

/// Law: turning a byte into bits and back yields the byte.
pub proof fn lemma_byte_bits_round_trip(b: u8)
    ensures
        spec_bits_byte(spec_byte_bits(b)) == b,
{
    assert((if b & 0x80u8 != 0u8 { 0x80u8 } else { 0u8 }) | (if b & 0x40u8 != 0u8 {
        0x40u8
    } else {
        0u8
    }) | (if b & 0x20u8 != 0u8 { 0x20u8 } else { 0u8 }) | (if b & 0x10u8 != 0u8 {
        0x10u8
    } else {
        0u8
    }) | (if b & 0x08u8 != 0u8 { 0x08u8 } else { 0u8 }) | (if b & 0x04u8 != 0u8 {
        0x04u8
    } else {
        0u8
    }) | (if b & 0x02u8 != 0u8 { 0x02u8 } else { 0u8 }) | (if b & 0x01u8 != 0u8 {
        0x01u8
    } else {
        0u8
    }) == b) by (bit_vector);
}

/// Law: turning eight bits into a byte and back yields the same bits.
pub proof fn lemma_bits_byte_round_trip(bits: Seq<bool>)
    requires
        bits.len() == 8,
    ensures
        spec_byte_bits(spec_bits_byte(bits)) == bits,
{
    let b = spec_bits_byte(bits);
    let b0 = bits[0];
    let b1 = bits[1];
    let b2 = bits[2];
    let b3 = bits[3];
    let b4 = bits[4];
    let b5 = bits[5];
    let b6 = bits[6];
    let b7 = bits[7];
    let v = (if b0 { 0x80u8 } else { 0u8 }) | (if b1 { 0x40u8 } else { 0u8 }) | (if b2 {
        0x20u8
    } else {
        0u8
    }) | (if b3 { 0x10u8 } else { 0u8 }) | (if b4 { 0x08u8 } else { 0u8 }) | (if b5 {
        0x04u8
    } else {
        0u8
    }) | (if b6 { 0x02u8 } else { 0u8 }) | (if b7 { 0x01u8 } else { 0u8 });
    assert((v & 0x80u8 != 0u8) == b0 && (v & 0x40u8 != 0u8) == b1 && (v & 0x20u8 != 0u8) == b2 && (
    v & 0x10u8 != 0u8) == b3 && (v & 0x08u8 != 0u8) == b4 && (v & 0x04u8 != 0u8) == b5 && (v
        & 0x02u8 != 0u8) == b6 && (v & 0x01u8 != 0u8) == b7) by (bit_vector)
        requires
            v == (if b0 { 0x80u8 } else { 0u8 }) | (if b1 { 0x40u8 } else { 0u8 }) | (if b2 {
                0x20u8
            } else {
                0u8
            }) | (if b3 { 0x10u8 } else { 0u8 }) | (if b4 { 0x08u8 } else { 0u8 }) | (if b5 {
                0x04u8
            } else {
                0u8
            }) | (if b6 { 0x02u8 } else { 0u8 }) | (if b7 { 0x01u8 } else { 0u8 }),
    ;
    assert(spec_byte_bits(b) =~= bits);
}

/// The eight bits of a byte, most significant first, as a vector.
pub fn encode_byte(b: u8) -> (r: Vec<bool>)
    ensures
        r@ == spec_byte_bits(b),
{
    let mut r: Vec<bool> = Vec::new();
    r.push(b & 0x80u8 != 0u8);
    r.push(b & 0x40u8 != 0u8);
    r.push(b & 0x20u8 != 0u8);
    r.push(b & 0x10u8 != 0u8);
    r.push(b & 0x08u8 != 0u8);
    r.push(b & 0x04u8 != 0u8);
    r.push(b & 0x02u8 != 0u8);
    r.push(b & 0x01u8 != 0u8);
    proof {
        assert(r@ =~= spec_byte_bits(b));
    }
    r
}

/// The byte eight wire bits stand for, most significant first.
pub fn decode_byte(bits: &Vec<bool>) -> (r: u8)
    requires
        bits@.len() == 8,
    ensures
        r == spec_bits_byte(bits@),
{
    (if bits[0] { 0x80u8 } else { 0u8 }) | (if bits[1] { 0x40u8 } else { 0u8 }) | (if bits[2] {
        0x20u8
    } else {
        0u8
    }) | (if bits[3] { 0x10u8 } else { 0u8 }) | (if bits[4] { 0x08u8 } else { 0u8 }) | (if bits[5] {
        0x04u8
    } else {
        0u8
    }) | (if bits[6] { 0x02u8 } else { 0u8 }) | (if bits[7] { 0x01u8 } else { 0u8 })
}

/// One shift step of the MSB-first CRC: shift left, folding the generator
/// polynomial in when the top bit falls out.
pub open spec fn crc8_shift(crc: u8, poly: u8) -> u8 {
    if crc & 0x80u8 != 0u8 {
        (crc << 1u8) ^ poly
    } else {
        crc << 1u8
    }
}

/// `n` CRC shift steps.
pub open spec fn crc8_bits(crc: u8, poly: u8, n: nat) -> u8
    decreases n,
{
    if n == 0 {
        crc
    } else {
        crc8_shift(crc8_bits(crc, poly, (n - 1) as nat), poly)
    }
}

/// Folding one byte into the running CRC: mix it in, then eight shift steps.
pub open spec fn crc8_byte(crc: u8, byte: u8, poly: u8) -> u8 {
    crc8_bits(crc ^ byte, poly, 8)
}

/// The CRC of a byte sequence, starting from the accumulator `acc`.
pub open spec fn crc8_over(data: Seq<u8>, poly: u8, acc: u8) -> u8
    decreases data.len(),
{
    if data.len() == 0 {
        acc
    } else {
        crc8_over(data.skip(1), poly, crc8_byte(acc, data[0], poly))
    }
}

/// Fold one byte into the running CRC.
pub fn crc8_update(crc: u8, byte: u8, poly: u8) -> (r: u8)
    ensures
        r == crc8_byte(crc, byte, poly),
{
    let mut c: u8 = crc ^ byte;
    let mut j: usize = 0;
    while j < 8
        invariant
            j <= 8,
            c == crc8_bits(crc ^ byte, poly, j as nat),
        decreases 8 - j,
    {
        if c & 0x80u8 != 0u8 {
            c = (c << 1u8) ^ poly;
        } else {
            c = c << 1u8;
        }
        j += 1;
    }
    c
}

/// The CRC of a byte sequence under the configured polynomial and initial
/// value.
pub fn crc8(data: &Vec<u8>, poly: u8, init: u8) -> (r: u8)
    ensures
        r == crc8_over(data@, poly, init),
{
    let mut acc: u8 = init;
    let mut i: usize = 0;
    proof {
        assert(data@.skip(0) =~= data@);
    }
    while i < data.len()
        invariant
            i <= data@.len(),
            crc8_over(data@, poly, init) == crc8_over(data@.skip(i as int), poly, acc),
        decreases data@.len() - i,
    {
        proof {
            assert(data@.skip(i as int).skip(1) =~= data@.skip(i as int + 1));
            assert(data@.skip(i as int)[0] == data@[i as int]);
        }
        acc = crc8_update(acc, data[i], poly);
        i += 1;
    }
    proof {
        assert(data@.skip(data@.len() as int) =~= Seq::<u8>::empty());
    }
    acc
}

/// The bytes a transaction puts on the wire: the payload — device-select
/// byte, command byte, then the data bytes — followed by the payload's CRC.
pub open spec fn spec_frame(device_select: u8, command: u8, data: Seq<u8>, poly: u8, init: u8) -> Seq<
    u8,
> {
    let payload = seq![device_select, command] + data;
    payload + seq![crc8_over(payload, poly, init)]
}

/// Build the frame for one transaction: payload plus its CRC.
pub fn build_frame(device_select: u8, command: u8, data: &Vec<u8>, poly: u8, init: u8) -> (r: Vec<
    u8,
>)
    ensures
        r@ == spec_frame(device_select, command, data@, poly, init),
        r@.len() == data@.len() + 3,
{
    let mut payload: Vec<u8> = Vec::new();
    payload.push(device_select);
    payload.push(command);
    let mut i: usize = 0;
    proof {
        assert(payload@ =~= seq![device_select, command] + data@.take(0));
    }
    while i < data.len()
        invariant
            i <= data@.len(),
            payload@ == seq![device_select, command] + data@.take(i as int),
        decreases data@.len() - i,
    {
        payload.push(data[i]);
        proof {
            assert(data@.take(i as int).push(data@[i as int]) =~= data@.take(i as int + 1));
            assert((seq![device_select, command] + data@.take(i as int)).push(data@[i as int])
                =~= seq![device_select, command] + data@.take(i as int + 1));
        }
        i += 1;
    }
    proof {
        assert(data@.take(data@.len() as int) =~= data@);
    }
    let crc = crc8(&payload, poly, init);
    payload.push(crc);
    payload
}

/// What a received frame means: too short or failing its CRC is a checksum
/// failure; otherwise the device-select byte, the command byte and the data.
pub open spec fn spec_check_frame(bytes: Seq<u8>, poly: u8, init: u8) -> Result<
    (u8, u8, Seq<u8>),
    BusError,
> {
    if bytes.len() < 3 {
        Err(BusError::CrcMismatch)
    } else if crc8_over(bytes.take(bytes.len() - 1), poly, init) != bytes[bytes.len() - 1] {
        Err(BusError::CrcMismatch)
    } else {
        Ok((bytes[0], bytes[1], bytes.subrange(2, bytes.len() - 1)))
    }
}

/// Check a received frame's CRC and take it apart into device-select byte,
/// command byte and data.
pub fn check_frame(bytes: &Vec<u8>, poly: u8, init: u8) -> (r: Result<(u8, u8, Vec<u8>), BusError>)
    ensures
        r is Ok <==> spec_check_frame(bytes@, poly, init) is Ok,
        r is Ok ==> {
            let (ds, cmd, data) = spec_check_frame(bytes@, poly, init)->Ok_0;
            &&& r->Ok_0.0 == ds
            &&& r->Ok_0.1 == cmd
            &&& r->Ok_0.2@ == data
        },
        r is Err ==> r->Err_0 is CrcMismatch,
    {
    if bytes.len() < 3 {
        return Err(BusError::CrcMismatch);
    }
    let n = bytes.len();
    let mut payload: Vec<u8> = Vec::new();
    let mut i: usize = 0;
    proof {
        assert(payload@ =~= bytes@.take(0));
    }
    while i < n - 1
        invariant
            n == bytes@.len(),
            3 <= n,
            i <= n - 1,
            payload@ == bytes@.take(i as int),
        decreases n - 1 - i,
    {
        payload.push(bytes[i]);
        proof {
            assert(bytes@.take(i as int).push(bytes@[i as int]) =~= bytes@.take(i as int + 1));
        }
        i += 1;
    }
    let crc = crc8(&payload, poly, init);
    if crc != bytes[n - 1] {
        return Err(BusError::CrcMismatch);
    }
    let mut data: Vec<u8> = Vec::new();
    let mut j: usize = 2;
    proof {
        assert(data@ =~= bytes@.subrange(2, 2));
    }
    while j < n - 1
        invariant
            n == bytes@.len(),
            3 <= n,
            2 <= j <= n - 1,
            data@ == bytes@.subrange(2, j as int),
        decreases n - 1 - j,
    {
        data.push(bytes[j]);
        proof {
            assert(bytes@.subrange(2, j as int).push(bytes@[j as int]) =~= bytes@.subrange(
                2,
                j as int + 1,
            ));
        }
        j += 1;
    }
    Ok((bytes[0], bytes[1], data))
}

/// Law: a frame built from a device-select byte, a command and data always
/// checks out and takes apart into exactly what was framed.
pub proof fn lemma_frame_round_trip(device_select: u8, command: u8, data: Seq<u8>, poly: u8, init: u8)
    ensures
        spec_check_frame(spec_frame(device_select, command, data, poly, init), poly, init)
            == Ok::<(u8, u8, Seq<u8>), BusError>((device_select, command, data)),
{
    let payload = seq![device_select, command] + data;
    let frame = spec_frame(device_select, command, data, poly, init);
    assert(frame.take(frame.len() - 1) =~= payload);
    assert(frame.subrange(2, frame.len() - 1) =~= data);
}

/// A byte sequence on the wire: each byte's bits, most significant first,
/// one after the other.
pub open spec fn spec_bytes_bits(bytes: Seq<u8>) -> Seq<bool>
    decreases bytes.len(),
{
    if bytes.len() == 0 {
        Seq::empty()
    } else {
        spec_byte_bits(bytes[0]) + spec_bytes_bits(bytes.skip(1))
    }
}

/// The bytes a wire bit sequence stands for, eight bits at a time; a
/// trailing fragment shorter than a byte is dropped.
pub open spec fn spec_bits_bytes(bits: Seq<bool>) -> Seq<u8>
    decreases bits.len(),
{
    if bits.len() < 8 {
        Seq::empty()
    } else {
        seq![spec_bits_byte(bits.take(8))] + spec_bits_bytes(bits.skip(8))
    }
}

/// Law: serializing bytes to wire bits and reading them back yields the
/// same bytes.
pub proof fn lemma_bytes_bits_round_trip(bytes: Seq<u8>)
    ensures
        spec_bits_bytes(spec_bytes_bits(bytes)) == bytes,
    decreases bytes.len(),
{
    if bytes.len() == 0 {
        assert(spec_bits_bytes(spec_bytes_bits(bytes)) =~= bytes);
    } else {
        let bits = spec_bytes_bits(bytes);
        assert(bits.len() >= 8);
        assert(bits.take(8) =~= spec_byte_bits(bytes[0]));
        lemma_byte_bits_round_trip(bytes[0]);
        assert(bits.skip(8) =~= spec_bytes_bits(bytes.skip(1)));
        lemma_bytes_bits_round_trip(bytes.skip(1));
        assert(spec_bits_bytes(bits) =~= bytes);
    }
}

/// Law: a full transaction round-trips over the bit encoding — putting a
/// framed command-plus-data sequence on the wire bit by bit and decoding the
/// observed bit sequence yields exactly the command and data the caller
/// requested, with the checksum checking out.
pub proof fn lemma_transaction_round_trip(
    device_select: u8,
    command: u8,
    data: Seq<u8>,
    poly: u8,
    init: u8,
)
    ensures
        spec_check_frame(
            spec_bits_bytes(spec_bytes_bits(spec_frame(device_select, command, data, poly, init))),
            poly,
            init,
        ) == Ok::<(u8, u8, Seq<u8>), BusError>((device_select, command, data)),
{
    lemma_bytes_bits_round_trip(spec_frame(device_select, command, data, poly, init));
    lemma_frame_round_trip(device_select, command, data, poly, init);
}

} // verus!
