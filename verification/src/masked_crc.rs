//! CRC-32C (Castagnoli) checksums and the masking applied to them in records.

use vstd::prelude::*;

verus! {

/// The Castagnoli generator polynomial, in bit-reflected form.
pub const CASTAGNOLI: u32 = 0x82f6_3b78;

/// The constant added to a rotated checksum to mask it.
pub const MASK_DELTA: u32 = 0xa282_ead8;

/// Divides the register by the polynomial for one bit.
pub open spec fn shift_bit(state: u32) -> u32 {
    if state & 1 == 1 {
        (state >> 1) ^ CASTAGNOLI
    } else {
        state >> 1
    }
}

/// Divides the register by the polynomial for eight bits.
pub open spec fn shift_byte(state: u32) -> u32 {
    shift_bit(
        shift_bit(
            shift_bit(shift_bit(shift_bit(shift_bit(shift_bit(shift_bit(state)))))),
        ),
    )
}

/// The register after one more byte of input.
pub open spec fn absorb(state: u32, byte: u8) -> u32 {
    shift_byte(state ^ (byte as u32))
}

/// The register after all of `data`, starting from all ones.
pub open spec fn crc_register(data: Seq<u8>) -> u32
    decreases data.len(),
{
    if data.len() == 0 {
        0xffff_ffff
    } else {
        absorb(crc_register(data.drop_last()), data.last())
    }
}

/// The CRC-32C checksum of `data`: the final register, inverted.
pub open spec fn crc32c(data: Seq<u8>) -> u32 {
    !crc_register(data)
}

/// The masking permutation: rotate right by 15 bits, then add [`MASK_DELTA`]
/// modulo 2^32.
pub open spec fn mask(crc: u32) -> u32 {
    ((((crc >> 15) | (crc << 17)) + MASK_DELTA) % 0x1_0000_0000) as u32
}

/// The masked CRC-32C checksum of `data`.
pub open spec fn masked_crc(data: Seq<u8>) -> u32 {
    mask(crc32c(data))
}

fn shift_bit_exec(state: u32) -> (next: u32)
    ensures
        next == shift_bit(state),
{
    if state & 1 == 1 {
        (state >> 1) ^ CASTAGNOLI
    } else {
        state >> 1
    }
}

fn absorb_exec(state: u32, byte: u8) -> (next: u32)
    ensures
        next == absorb(state, byte),
{
    let mut register: u32 = state ^ (byte as u32);
    register = shift_bit_exec(register);
    register = shift_bit_exec(register);
    register = shift_bit_exec(register);
    register = shift_bit_exec(register);
    register = shift_bit_exec(register);
    register = shift_bit_exec(register);
    register = shift_bit_exec(register);
    register = shift_bit_exec(register);
    register
}

/// Computes the CRC-32C checksum of `bytes`.
pub fn checksum(bytes: &[u8]) -> (crc: u32)
    ensures
        crc == crc32c(bytes@),
{
    let mut register: u32 = 0xffff_ffff;
    let mut i: usize = 0;
    while i < bytes.len()
        invariant
            i <= bytes.len(),
            register == crc_register(bytes@.take(i as int)),
        decreases bytes.len() - i,
    {
        proof {
            let next = bytes@.take(i + 1);
            assert(next.drop_last() =~= bytes@.take(i as int));
            assert(next.last() == bytes@[i as int]);
        }
        register = absorb_exec(register, bytes[i]);
        i += 1;
    }
    proof {
        assert(bytes@.take(i as int) =~= bytes@);
    }
    !register
}

/// Dividing by the polynomial loses nothing: two registers that agree after
/// eight bits agreed before them.
pub proof fn lemma_shift_byte_injective(a: u32, b: u32)
    requires
        shift_byte(a) == shift_byte(b),
    ensures
        a == b,
{
    assert(forall|x: u32, y: u32| shift_bit(x) == shift_bit(y) ==> x == y) by (bit_vector);
}

/// Two inputs of equal length that differ in exactly one byte leave
/// different registers behind.
pub proof fn lemma_register_single_byte_change(a: Seq<u8>, b: Seq<u8>, at: int)
    requires
        a.len() == b.len(),
        0 <= at < a.len(),
        a[at] != b[at],
        forall|i: int| 0 <= i < a.len() && i != at ==> a[i] == b[i],
    ensures
        crc_register(a) != crc_register(b),
    decreases a.len(),
{
    let last = a.len() - 1;
    if at == last {
        assert(a.drop_last() =~= b.drop_last());
        let before = crc_register(a.drop_last());
        let x = a[last];
        let y = b[last];
        assert(before ^ (x as u32) != before ^ (y as u32)) by (bit_vector)
            requires
                x != y,
        ;
        if absorb(before, x) == absorb(before, y) {
            lemma_shift_byte_injective(before ^ (x as u32), before ^ (y as u32));
        }
    } else {
        lemma_register_single_byte_change(a.drop_last(), b.drop_last(), at);
        let ra = crc_register(a.drop_last());
        let rb = crc_register(b.drop_last());
        let x = a[last];
        assert(ra ^ (x as u32) != rb ^ (x as u32)) by (bit_vector)
            requires
                ra != rb,
        ;
        if absorb(ra, x) == absorb(rb, x) {
            lemma_shift_byte_injective(ra ^ (x as u32), rb ^ (x as u32));
        }
    }
}

/// The masking permutation is one to one.
pub proof fn lemma_mask_injective(a: u32, b: u32)
    requires
        mask(a) == mask(b),
    ensures
        a == b,
{
    let ra = (a >> 15) | (a << 17);
    let rb = (b >> 15) | (b << 17);
    assert(ra == rb);
    assert(a == b) by (bit_vector)
        requires
            (a >> 15) | (a << 17) == (b >> 15) | (b << 17),
    ;
}

/// CRC-32C detects every change that is confined to a single byte, and so
/// every single flipped bit; masking does not hide it.
pub proof fn lemma_masked_crc_single_byte_change(a: Seq<u8>, b: Seq<u8>, at: int)
    requires
        a.len() == b.len(),
        0 <= at < a.len(),
        a[at] != b[at],
        forall|i: int| 0 <= i < a.len() && i != at ==> a[i] == b[i],
    ensures
        crc32c(a) != crc32c(b),
        masked_crc(a) != masked_crc(b),
{
    lemma_register_single_byte_change(a, b, at);
    let ra = crc_register(a);
    let rb = crc_register(b);
    assert(!ra != !rb) by (bit_vector)
        requires
            ra != rb,
    ;
    if masked_crc(a) == masked_crc(b) {
        lemma_mask_injective(crc32c(a), crc32c(b));
    }
}

/// A CRC-32C checksum that has undergone the masking permutation.
#[derive(Clone, Copy, Debug, PartialEq, Eq, Structural)]
pub struct MaskedCrc(pub u32);

impl MaskedCrc {
    /// Masks a raw CRC-32C checksum.
    pub fn from_crc(crc: u32) -> (masked: MaskedCrc)
        ensures
            masked.0 == mask(crc),
    {
        MaskedCrc(((crc >> 15) | (crc << 17)).wrapping_add(MASK_DELTA))
    }

    /// Computes the masked checksum of `bytes`.
    pub fn compute(bytes: &[u8]) -> (masked: MaskedCrc)
        ensures
            masked.0 == masked_crc(bytes@),
    {
        MaskedCrc::from_crc(checksum(bytes))
    }
}

} // verus!
