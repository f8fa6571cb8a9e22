//! Records: the length-prefixed, doubly checksummed frames of an event file.
//!
//! A record is laid out as follows, all integers little-endian:
//!
//! | bytes    | content                                   |
//! |----------|-------------------------------------------|
//! | 8        | length of the payload                     |
//! | 4        | masked CRC-32C of the eight length bytes  |
//! | `length` | the payload                               |
//! | 4        | masked CRC-32C of the payload             |
//!
//! Records follow each other with nothing in between.

use vstd::prelude::*;
use vstd::bytes::*;
use vstd::slice::*;
use crate::masked_crc::{lemma_masked_crc_single_byte_change, masked_crc, MaskedCrc};
use crate::sink::{has_room, Sink};

verus! {

/// The number of bytes before the payload of a record.
pub const HEADER_LEN: usize = 12;

/// The number of bytes after the payload of a record.
pub const FOOTER_LEN: usize = 4;

/// The bytes before a payload of `length` bytes: the length and its checksum.
pub open spec fn header(length: u64) -> Seq<u8> {
    spec_u64_to_le_bytes(length) + spec_u32_to_le_bytes(
        masked_crc(spec_u64_to_le_bytes(length)),
    )
}

/// The bytes after the payload `data`: its checksum.
pub open spec fn footer(data: Seq<u8>) -> Seq<u8> {
    spec_u32_to_le_bytes(masked_crc(data))
}

/// The serialized record that carries `data`.
pub open spec fn frame(data: Seq<u8>) -> Seq<u8>
    recommends
        data.len() <= u64::MAX,
{
    header(data.len() as u64) + data + footer(data)
}

/// A record is sixteen bytes longer than its payload.
pub proof fn lemma_frame_len(data: Seq<u8>)
    ensures
        header(data.len() as u64).len() == HEADER_LEN,
        footer(data).len() == FOOTER_LEN,
        frame(data).len() == data.len() + HEADER_LEN + FOOTER_LEN,
{
    lemma_auto_spec_u64_to_from_le_bytes();
    lemma_auto_spec_u32_to_from_le_bytes();
}

/// The checksummed parts of a record.
#[derive(Clone, Copy, Debug, PartialEq, Eq)]
pub enum ChecksumField {
    /// The eight bytes that hold the payload length.
    Length,
    /// The payload.
    Data,
}

/// Why no record could be read.
#[derive(Clone, Copy, Debug, PartialEq, Eq)]
pub enum ReadError {
    /// The source is exhausted: no byte remains where a record would start.
    Eof,
    /// A record starts but the source ends before the record does.
    Truncated,
    /// A stored checksum differs from the checksum of the bytes it covers.
    ChecksumMismatch(ChecksumField),
}

/// What reading one record from the front of `source` yields: the payload and
/// the number of bytes the record occupies, or the reason there is none.
///
/// The length checksum is examined before the length is relied upon, so a
/// damaged length is reported as such and never as a truncation.
pub open spec fn parse(source: Seq<u8>) -> Result<(Seq<u8>, nat), ReadError> {
    if source.len() == 0 {
        Err(ReadError::Eof)
    } else if source.len() < HEADER_LEN {
        Err(ReadError::Truncated)
    } else {
        let length_bytes = source.subrange(0, 8);
        let length = spec_u64_from_le_bytes(length_bytes);
        if spec_u32_from_le_bytes(source.subrange(8, 12)) != masked_crc(length_bytes) {
            Err(ReadError::ChecksumMismatch(ChecksumField::Length))
        } else if source.len() - HEADER_LEN - FOOTER_LEN < length {
            Err(ReadError::Truncated)
        } else {
            let data = source.subrange(12, 12 + length);
            if spec_u32_from_le_bytes(source.subrange(12 + length, 16 + length)) != masked_crc(
                data,
            ) {
                Err(ReadError::ChecksumMismatch(ChecksumField::Data))
            } else {
                Ok((data, (16 + length) as nat))
            }
        }
    }
}

/// Reading a serialized record gives back its payload, whatever follows the
/// record in the source.
pub proof fn lemma_parse_frame(data: Seq<u8>, rest: Seq<u8>)
    requires
        data.len() <= u64::MAX,
    ensures
        parse(frame(data) + rest) == Ok::<(Seq<u8>, nat), ReadError>((data, frame(data).len())),
{
    lemma_frame_len(data);
    lemma_auto_spec_u64_to_from_le_bytes();
    lemma_auto_spec_u32_to_from_le_bytes();
    let source = frame(data) + rest;
    let length = data.len() as u64;
    assert(source.subrange(0, 8) =~= spec_u64_to_le_bytes(length));
    assert(source.subrange(8, 12) =~= spec_u32_to_le_bytes(
        masked_crc(spec_u64_to_le_bytes(length)),
    ));
    assert(source.subrange(12, 12 + length) =~= data);
    assert(source.subrange(12 + length, 16 + length) =~= footer(data));
}

/// A record that was cut short is never taken for a record: reading any
/// proper prefix of a serialized record fails, as the end of the source if
/// the prefix is empty and as a truncation otherwise.
pub proof fn lemma_parse_truncated_frame(data: Seq<u8>, kept: int)
    requires
        data.len() <= u64::MAX,
        0 <= kept < frame(data).len(),
    ensures
        parse(frame(data).take(kept)) == Err::<(Seq<u8>, nat), ReadError>(
            if kept == 0 {
                ReadError::Eof
            } else {
                ReadError::Truncated
            },
        ),
{
    lemma_frame_len(data);
    lemma_auto_spec_u64_to_from_le_bytes();
    lemma_auto_spec_u32_to_from_le_bytes();
    let source = frame(data).take(kept);
    let length = data.len() as u64;
    if kept >= 12 {
        assert(source.subrange(0, 8) =~= spec_u64_to_le_bytes(length));
        assert(source.subrange(8, 12) =~= spec_u32_to_le_bytes(
            masked_crc(spec_u64_to_le_bytes(length)),
        ));
    }
}

/// Four bytes that differ somewhere decode to different numbers.
proof fn lemma_u32_from_le_bytes_differs(a: Seq<u8>, b: Seq<u8>)
    requires
        a.len() == 4,
        b.len() == 4,
        a != b,
    ensures
        spec_u32_from_le_bytes(a) != spec_u32_from_le_bytes(b),
{
    lemma_auto_spec_u32_to_from_le_bytes();
    assert(spec_u32_to_le_bytes(spec_u32_from_le_bytes(a)) == a);
    assert(spec_u32_to_le_bytes(spec_u32_from_le_bytes(b)) == b);
}

/// Changing any one byte of a serialized record makes reading it fail with a
/// checksum mismatch: on the length if the byte lies in the header, on the
/// data otherwise.
pub proof fn lemma_parse_detects_byte_change(data: Seq<u8>, at: int, byte: u8)
    requires
        data.len() <= u64::MAX,
        0 <= at < frame(data).len(),
        byte != frame(data)[at],
    ensures
        parse(frame(data).update(at, byte)) == Err::<(Seq<u8>, nat), ReadError>(
            ReadError::ChecksumMismatch(
                if at < HEADER_LEN {
                    ChecksumField::Length
                } else {
                    ChecksumField::Data
                },
            ),
        ),
{
    lemma_frame_len(data);
    lemma_auto_spec_u64_to_from_le_bytes();
    lemma_auto_spec_u32_to_from_le_bytes();
    let length = data.len() as u64;
    let length_bytes = spec_u64_to_le_bytes(length);
    let length_crc = spec_u32_to_le_bytes(masked_crc(length_bytes));
    let data_crc = footer(data);
    let whole = frame(data);
    let source = whole.update(at, byte);
    assert(whole.subrange(0, 8) =~= length_bytes);
    assert(whole.subrange(8, 12) =~= length_crc);
    assert(whole.subrange(12, 12 + length) =~= data);
    assert(whole.subrange(12 + length, 16 + length) =~= data_crc);
    if at < 8 {
        let changed = source.subrange(0, 8);
        assert(changed =~= length_bytes.update(at, byte));
        assert(source.subrange(8, 12) =~= length_crc);
        lemma_masked_crc_single_byte_change(length_bytes, changed, at);
    } else if at < 12 {
        assert(source.subrange(0, 8) =~= length_bytes);
        let changed = source.subrange(8, 12);
        assert(changed =~= length_crc.update(at - 8, byte));
        assert(changed[at - 8] != length_crc[at - 8]);
        lemma_u32_from_le_bytes_differs(changed, length_crc);
    } else if at < 12 + length {
        assert(source.subrange(0, 8) =~= length_bytes);
        assert(source.subrange(8, 12) =~= length_crc);
        let changed = source.subrange(12, 12 + length);
        assert(changed =~= data.update(at - 12, byte));
        assert(source.subrange(12 + length, 16 + length) =~= data_crc);
        lemma_masked_crc_single_byte_change(data, changed, at - 12);
    } else {
        assert(source.subrange(0, 8) =~= length_bytes);
        assert(source.subrange(8, 12) =~= length_crc);
        assert(source.subrange(12, 12 + length) =~= data);
        let changed = source.subrange(12 + length, 16 + length);
        assert(changed =~= data_crc.update(at - 12 - length, byte));
        assert(changed[at - 12 - length] != data_crc[at - 12 - length]);
        lemma_u32_from_le_bytes_differs(changed, data_crc);
    }
}

/// `bytes` with one bit inverted; bits are counted from the least significant
/// bit of the first byte.
pub open spec fn flip_bit(bytes: Seq<u8>, bit: int) -> Seq<u8>
    recommends
        0 <= bit < 8 * bytes.len(),
{
    bytes.update(bit / 8, bytes[bit / 8] ^ (1u8 << ((bit % 8) as u8)))
}

/// Flipping any single bit of a serialized record makes reading it fail with
/// a checksum mismatch: on the length if the bit lies in the header, on the
/// data otherwise.
pub proof fn lemma_parse_detects_bit_flip(data: Seq<u8>, bit: int)
    requires
        data.len() <= u64::MAX,
        0 <= bit < 8 * frame(data).len(),
    ensures
        parse(flip_bit(frame(data), bit)) == Err::<(Seq<u8>, nat), ReadError>(
            ReadError::ChecksumMismatch(
                if bit < 8 * HEADER_LEN {
                    ChecksumField::Length
                } else {
                    ChecksumField::Data
                },
            ),
        ),
{
    let old_byte = frame(data)[bit / 8];
    let shift = (bit % 8) as u8;
    assert(old_byte ^ (1u8 << shift) != old_byte) by (bit_vector)
        requires
            shift < 8,
    ;
    lemma_parse_detects_byte_change(data, bit / 8, old_byte ^ (1u8 << shift));
}

/// One record of an event file. Its length and both checksums always agree
/// with its payload.
#[derive(Debug, PartialEq, Eq)]
pub struct TfRecord {
    length: u64,
    length_crc: MaskedCrc,
    data: Vec<u8>,
    data_crc: MaskedCrc,
}

impl View for TfRecord {
    type V = Seq<u8>;

    /// The payload.
    closed spec fn view(&self) -> Seq<u8> {
        self.data@
    }
}

impl Clone for TfRecord {
    fn clone(&self) -> (copy: Self)
        ensures
            copy@ == self@,
    {
        proof {
            use_type_invariant(self);
        }
        TfRecord {
            length: self.length,
            length_crc: self.length_crc,
            data: self.data.clone(),
            data_crc: self.data_crc,
        }
    }
}

impl TfRecord {
    #[verifier::type_invariant]
    spec fn consistent(self) -> bool {
        &&& self.length == self.data@.len()
        &&& self.length_crc.0 == masked_crc(spec_u64_to_le_bytes(self.length))
        &&& self.data_crc.0 == masked_crc(self.data@)
    }

    /// Creates the record that carries `data`, computing its checksums.
    pub fn from_data(data: Vec<u8>) -> (record: TfRecord)
        ensures
            record@ == data@,
    {
        let length: u64 = data.len() as u64;
        let length_bytes = u64_to_le_bytes(length);
        let length_crc = MaskedCrc::compute(length_bytes.as_slice());
        let data_crc = MaskedCrc::compute(data.as_slice());
        TfRecord { length, length_crc, data, data_crc }
    }

    /// The payload.
    pub fn data(&self) -> (data: &Vec<u8>)
        ensures
            data@ == self@,
    {
        &self.data
    }

    /// Gives up the record for its payload.
    pub fn into_data(self) -> (data: Vec<u8>)
        ensures
            data@ == self@,
    {
        self.data
    }

    /// The length of the payload in bytes.
    pub fn length(&self) -> (length: u64)
        ensures
            length == self@.len(),
    {
        proof {
            use_type_invariant(self);
        }
        self.length
    }

    /// The masked checksum of the eight little-endian bytes of the length.
    pub fn length_checksum(&self) -> (crc: MaskedCrc)
        ensures
            crc.0 == masked_crc(spec_u64_to_le_bytes(self@.len() as u64)),
    {
        proof {
            use_type_invariant(self);
        }
        self.length_crc
    }

    /// The masked checksum of the payload.
    pub fn data_checksum(&self) -> (crc: MaskedCrc)
        ensures
            crc.0 == masked_crc(self@),
    {
        proof {
            use_type_invariant(self);
        }
        self.data_crc
    }

    fn header_bytes(&self) -> (bytes: Vec<u8>)
        ensures
            bytes@ == header(self@.len() as u64),
    {
        proof {
            use_type_invariant(self);
        }
        let mut bytes = u64_to_le_bytes(self.length);
        let mut crc = u32_to_le_bytes(self.length_crc.0);
        bytes.append(&mut crc);
        bytes
    }

    /// Serializes the record. Reading the result gives the payload back.
    pub fn to_bytes(&self) -> (bytes: Vec<u8>)
        ensures
            bytes@ == frame(self@),
            parse(bytes@) == Ok::<(Seq<u8>, nat), ReadError>((self@, bytes@.len())),
    {
        proof {
            use_type_invariant(self);
            lemma_parse_frame(self@, Seq::empty());
            assert(frame(self@) + Seq::<u8>::empty() =~= frame(self@));
        }
        let mut bytes = self.header_bytes();
        bytes.extend_from_slice(self.data.as_slice());
        let mut crc = u32_to_le_bytes(self.data_crc.0);
        bytes.append(&mut crc);
        assert(bytes@ =~= frame(self@));
        bytes
    }

    /// Appends the serialized record to `sink`.
    ///
    /// The record goes out in three writes. The first one that fails ends the
    /// attempt: nothing is retried or taken back, and the sink is left with a
    /// proper prefix of the record.
    pub fn write<W: Sink>(&self, sink: &mut W) -> (outcome: Result<(), W::Error>)
        ensures
            final(sink).capacity() == old(sink).capacity(),
            has_room(old(sink), frame(self@).len()) ==> outcome is Ok,
            outcome is Ok ==> final(sink).accepted() == old(sink).accepted() + frame(self@),
            outcome is Err ==> exists|n: int|
                0 <= n < frame(self@).len() && final(sink).accepted() == old(sink).accepted()
                    + #[trigger] frame(self@).take(n),
    {
        proof {
            use_type_invariant(self);
        }
        let ghost before = sink.accepted();
        let ghost whole = frame(self@);
        proof {
            lemma_frame_len(self@);
        }
        let head = self.header_bytes();
        match sink.write_all(head.as_slice()) {
            Ok(()) => {},
            Err(e) => {
                proof {
                    let n = choose|n: int|
                        0 <= n < head@.len() && sink.accepted() == before + #[trigger] head@.take(
                            n,
                        );
                    assert(head@.take(n) =~= whole.take(n));
                }
                return Err(e);
            },
        }
        match sink.write_all(self.data.as_slice()) {
            Ok(()) => {},
            Err(e) => {
                proof {
                    let n = choose|n: int|
                        0 <= n < self.data@.len() && sink.accepted() == before + head@
                            + #[trigger] self.data@.take(n);
                    assert(before + head@ + self.data@.take(n) =~= before + whole.take(12 + n));
                }
                return Err(e);
            },
        }
        let tail = u32_to_le_bytes(self.data_crc.0);
        match sink.write_all(tail.as_slice()) {
            Ok(()) => {
                proof {
                    assert(before + head@ + self.data@ + tail@ =~= before + whole);
                }
                Ok(())
            },
            Err(e) => {
                proof {
                    let n = choose|n: int|
                        0 <= n < tail@.len() && sink.accepted() == before + head@ + self.data@
                            + #[trigger] tail@.take(n);
                    assert(before + head@ + self.data@ + tail@.take(n) =~= before + whole.take(
                        12 + self.data@.len() + n,
                    ));
                }
                Err(e)
            },
        }
    }

    /// Reads one record from the front of `source`, verifying both checksums
    /// against the bytes read. Returns the record and the number of bytes it
    /// occupies.
    pub fn read(source: &[u8]) -> (outcome: Result<(TfRecord, usize), ReadError>)
        ensures
            match parse(source@) {
                Ok((data, used)) => outcome matches Ok((record, consumed)) && record@ == data
                    && consumed == used,
                Err(reason) => outcome == Err::<(TfRecord, usize), ReadError>(reason),
            },
    {
        let available = source.len();
        if available == 0 {
            return Err(ReadError::Eof);
        }
        if available < HEADER_LEN {
            return Err(ReadError::Truncated);
        }
        let length_bytes = slice_subrange(source, 0, 8);
        let length = u64_from_le_bytes(length_bytes);
        let length_crc = MaskedCrc::compute(length_bytes);
        if u32_from_le_bytes(slice_subrange(source, 8, 12)) != length_crc.0 {
            return Err(ReadError::ChecksumMismatch(ChecksumField::Length));
        }
        if available - HEADER_LEN < FOOTER_LEN || length > (available - HEADER_LEN
            - FOOTER_LEN) as u64 {
            return Err(ReadError::Truncated);
        }
        let size = length as usize;
        let data = slice_to_vec(slice_subrange(source, 12, 12 + size));
        let data_crc = MaskedCrc::compute(data.as_slice());
        if u32_from_le_bytes(slice_subrange(source, 12 + size, 16 + size)) != data_crc.0 {
            return Err(ReadError::ChecksumMismatch(ChecksumField::Data));
        }
        proof {
            lemma_auto_spec_u64_to_from_le_bytes();
        }
        Ok((TfRecord { length, length_crc, data, data_crc }, 16 + size))
    }
}

} // verus!
