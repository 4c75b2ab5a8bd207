//! The frame in which a state document lies on the medium.
//!
//! A frame is a fixed header and the document's bytes: a four-byte mark, the
//! schema version, the length of the document in two halves, and a checksum
//! of the document, each as four bytes with the most significant first. A
//! torn or foreign file does not pass for a frame: its mark, its length or
//! its checksum will not fit.

use vstd::prelude::*;
use vstd::string::*;
use crate::error::StateError;

verus! {

/// Number of bytes before the document.
pub const HEADER_LEN: usize = 20;

/// The mark that opens every frame.
pub open spec fn mark() -> Seq<u8> {
    seq![0x52u8, 0x4cu8, 0x53u8, 0x31u8]
}

/// The four bytes of `x`, most significant first.
pub open spec fn be32(x: u32) -> Seq<u8> {
    seq![
        (x / 0x100_0000) as u8,
        (x / 0x1_0000 % 0x100) as u8,
        (x / 0x100 % 0x100) as u8,
        (x % 0x100) as u8,
    ]
}

/// The number that four bytes stand for, most significant first.
pub open spec fn from_be32(s: Seq<u8>) -> int {
    s[0] * 0x100_0000 + s[1] * 0x1_0000 + s[2] * 0x100 + s[3]
}

/// The sum of the bytes, kept within 32 bits.
pub open spec fn checksum(s: Seq<u8>) -> u32
    decreases s.len(),
{
    if s.len() == 0 {
        0
    } else {
        ((checksum(s.drop_last()) + s.last()) % 0x1_0000_0000) as u32
    }
}

/// The frame of a document of the given schema version.
pub open spec fn framed(schema_version: u32, document: Seq<u8>) -> Seq<u8> {
    mark() + be32(schema_version) + be32((document.len() / 0x1_0000_0000) as u32) + be32(
        (document.len() % 0x1_0000_0000) as u32,
    ) + be32(checksum(document)) + document
}

/// The bytes are a frame: the mark is there, and length and checksum in the
/// header are those of the bytes after the header.
pub open spec fn well_framed(bytes: Seq<u8>) -> bool {
    &&& bytes.len() >= HEADER_LEN
    &&& bytes.subrange(0, 4) == mark()
    &&& from_be32(bytes.subrange(8, 12)) * 0x1_0000_0000 + from_be32(bytes.subrange(12, 16))
        == bytes.len() - HEADER_LEN
    &&& from_be32(bytes.subrange(16, 20)) == checksum(bytes.subrange(HEADER_LEN as int, bytes.len() as int))
}

/// The schema version and the document of a frame; `None` for bytes that
/// are no frame.
pub open spec fn unframed(bytes: Seq<u8>) -> Option<(u32, Seq<u8>)> {
    if well_framed(bytes) {
        Some(
            (
                from_be32(bytes.subrange(4, 8)) as u32,
                bytes.subrange(HEADER_LEN as int, bytes.len() as int),
            ),
        )
    } else {
        None
    }
}

/// Four bytes read back give the number that was written.
pub proof fn lemma_be32_round_trip(x: u32)
    ensures
        be32(x).len() == 4,
        from_be32(be32(x)) == x,
{
}

/// Unframing a frame gives back the schema version and the document.
pub proof fn lemma_frame_round_trip(schema_version: u32, document: Seq<u8>)
    requires
        document.len() <= u64::MAX,
    ensures
        unframed(framed(schema_version, document)) == Some((schema_version, document)),
{
    let high = (document.len() / 0x1_0000_0000) as u32;
    let low = (document.len() % 0x1_0000_0000) as u32;
    let bytes = framed(schema_version, document);
    lemma_be32_round_trip(schema_version);
    lemma_be32_round_trip(high);
    lemma_be32_round_trip(low);
    lemma_be32_round_trip(checksum(document));
    assert(bytes.len() == HEADER_LEN + document.len());
    assert(bytes.subrange(0, 4) =~= mark());
    assert(bytes.subrange(4, 8) =~= be32(schema_version));
    assert(bytes.subrange(8, 12) =~= be32(high));
    assert(bytes.subrange(12, 16) =~= be32(low));
    assert(bytes.subrange(16, 20) =~= be32(checksum(document)));
    assert(bytes.subrange(HEADER_LEN as int, bytes.len() as int) =~= document);
}

/// Computes [`checksum`].
pub fn compute_checksum(bytes: &Vec<u8>, from: usize) -> (sum: u32)
    requires
        from <= bytes@.len(),
    ensures
        sum == checksum(bytes@.subrange(from as int, bytes@.len() as int)),
{
    let mut sum: u32 = 0;
    let mut i: usize = from;
    while i < bytes.len()
        invariant
            from <= i <= bytes@.len(),
            sum == checksum(bytes@.subrange(from as int, i as int)),
        decreases bytes@.len() - i,
    {
        let next: u64 = (sum as u64 + bytes[i] as u64) % 0x1_0000_0000;
        proof {
            let grown = bytes@.subrange(from as int, i + 1);
            assert(grown.drop_last() =~= bytes@.subrange(from as int, i as int));
            assert(grown.last() == bytes@[i as int]);
        }
        sum = next as u32;
        i = i + 1;
    }
    sum
}

/// Appends the four bytes of `x`.
fn put_be32(out: &mut Vec<u8>, x: u32)
    ensures
        final(out)@ == old(out)@ + be32(x),
{
    out.push((x / 0x100_0000) as u8);
    out.push((x / 0x1_0000 % 0x100) as u8);
    out.push((x / 0x100 % 0x100) as u8);
    out.push((x % 0x100) as u8);
    assert(out@ =~= old(out)@ + be32(x));
}

/// Reads the number that the four bytes at `at` stand for.
fn get_be32(bytes: &Vec<u8>, at: usize) -> (x: u32)
    requires
        at + 4 <= bytes@.len(),
    ensures
        x == from_be32(bytes@.subrange(at as int, at + 4)),
{
    let total = bytes.len();
    assert(at + 4 <= total);
    let b0: u32 = bytes[at] as u32;
    let b1: u32 = bytes[at + 1] as u32;
    let b2: u32 = bytes[at + 2] as u32;
    let b3: u32 = bytes[at + 3] as u32;
    b0 * 0x100_0000 + b1 * 0x1_0000 + b2 * 0x100 + b3
}

/// Puts a document into its frame. What comes out is a frame, and
/// unframing it gives the schema version and the document back.
pub fn encode_document(schema_version: u32, document: &Vec<u8>) -> (bytes: Vec<u8>)
    ensures
        bytes@ == framed(schema_version, document@),
        unframed(bytes@) == Some((schema_version, document@)),
{
    let length: u64 = document.len() as u64;
    proof {
        lemma_frame_round_trip(schema_version, document@);
    }
    let mut bytes: Vec<u8> = Vec::new();
    bytes.push(0x52u8);
    bytes.push(0x4cu8);
    bytes.push(0x53u8);
    bytes.push(0x31u8);
    assert(bytes@ =~= mark());
    put_be32(&mut bytes, schema_version);
    put_be32(&mut bytes, (length / 0x1_0000_0000) as u32);
    put_be32(&mut bytes, (length % 0x1_0000_0000) as u32);
    let sum = compute_checksum(document, 0);
    assert(document@.subrange(0, document@.len() as int) =~= document@);
    put_be32(&mut bytes, sum);
    let ghost header = bytes@;
    let mut i: usize = 0;
    while i < document.len()
        invariant
            i <= document@.len(),
            bytes@ == header + document@.subrange(0, i as int),
        decreases document@.len() - i,
    {
        bytes.push(document[i]);
        assert(bytes@ =~= header + document@.subrange(0, i + 1));
        i = i + 1;
    }
    assert(document@.subrange(0, i as int) =~= document@);
    bytes
}

/// Takes a document out of its frame.
///
/// Returns the schema version and the document exactly when the bytes are
/// a frame, and fails with `Corrupted` on all others.
pub fn decode_document(bytes: &Vec<u8>) -> (r: Result<(u32, Vec<u8>), StateError>)
    ensures
        match r {
            Ok((schema_version, document)) => unframed(bytes@) == Some((schema_version, document@)),
            Err(StateError::Corrupted { reason }) => unframed(bytes@) is None && reason@
                == "state record is damaged"@,
            Err(_) => false,
        },
{
    let total = bytes.len();
    let mut sound = total >= HEADER_LEN;
    if sound {
        assert(bytes@.subrange(0, 4) =~= seq![bytes@[0], bytes@[1], bytes@[2], bytes@[3]]);
        sound = bytes[0] == 0x52u8 && bytes[1] == 0x4cu8 && bytes[2] == 0x53u8 && bytes[3] == 0x31u8;
        assert(sound == (bytes@.subrange(0, 4) == mark())) by {
            if bytes@.subrange(0, 4) == mark() {
                assert(mark()[0] == 0x52u8 && mark()[1] == 0x4cu8 && mark()[2] == 0x53u8 && mark()[3]
                    == 0x31u8);
            } else if sound {
                assert(bytes@.subrange(0, 4) =~= mark());
            }
        }
    }
    if sound {
        let high = get_be32(bytes, 8);
        let low = get_be32(bytes, 12);
        let length: u64 = (total - HEADER_LEN) as u64;
        sound = high as u64 == length / 0x1_0000_0000 && low as u64 == length % 0x1_0000_0000;
        assert(sound == (from_be32(bytes@.subrange(8, 12)) * 0x1_0000_0000 + from_be32(
            bytes@.subrange(12, 16),
        ) == bytes@.len() - HEADER_LEN));
    }
    if sound {
        let stated = get_be32(bytes, 16);
        let found = compute_checksum(bytes, HEADER_LEN);
        sound = stated == found;
    }
    if !sound {
        return Err(StateError::Corrupted { reason: String::from_str("state record is damaged") });
    }
    let schema_version = get_be32(bytes, 4);
    let mut document: Vec<u8> = Vec::new();
    let mut i: usize = HEADER_LEN;
    while i < total
        invariant
            HEADER_LEN <= i <= total,
            total == bytes@.len(),
            document@ == bytes@.subrange(HEADER_LEN as int, i as int),
        decreases total - i,
    {
        document.push(bytes[i]);
        assert(document@ =~= bytes@.subrange(HEADER_LEN as int, i + 1));
        i = i + 1;
    }
    Ok((schema_version, document))
}

} // verus!
