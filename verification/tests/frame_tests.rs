use cyrup_release::error::StateError;
use cyrup_release::frame::{compute_checksum, decode_document, encode_document, HEADER_LEN};

#[test]
fn frame_of_a_small_document() {
    let bytes = encode_document(1, &vec![1, 2, 3]);
    assert_eq!(
        bytes,
        vec![0x52, 0x4c, 0x53, 0x31, 0, 0, 0, 1, 0, 0, 0, 0, 0, 0, 0, 3, 0, 0, 0, 6, 1, 2, 3]
    );
    assert_eq!(HEADER_LEN, 20);
}

#[test]
fn frame_header_holds_version_and_checksum_most_significant_first() {
    let document = vec![0xffu8; 300];
    let bytes = encode_document(0x0102_0304, &document);
    assert_eq!(&bytes[4..8], &[1, 2, 3, 4]);
    assert_eq!(&bytes[8..16], &[0, 0, 0, 0, 0, 0, 1, 44]);
    // 300 * 255 = 76500 = 0x012ad4
    assert_eq!(&bytes[16..20], &[0, 1, 0x2a, 0xd4]);
    assert_eq!(compute_checksum(&document, 0), 76500);
    assert_eq!(compute_checksum(&document, 299), 255);
    assert_eq!(compute_checksum(&document, 300), 0);
}

#[test]
fn decode_gives_back_what_was_encoded() {
    for document in [vec![], vec![0u8], b"{\"release_id\":\"r\"}".to_vec(), vec![7u8; 1000]] {
        for version in [0u32, 1, 77, u32::MAX] {
            let bytes = encode_document(version, &document);
            assert_eq!(bytes.len(), HEADER_LEN + document.len());
            let (found, back) = decode_document(&bytes).unwrap();
            assert_eq!(found, version);
            assert_eq!(back, document);
        }
    }
}

fn damaged(bytes: &Vec<u8>) -> bool {
    match decode_document(bytes) {
        Err(StateError::Corrupted { reason }) => {
            assert_eq!(reason, "state record is damaged");
            true
        }
        _ => false,
    }
}

#[test]
fn torn_and_foreign_bytes_are_no_frame() {
    let bytes = encode_document(1, &b"payload".to_vec());
    assert!(decode_document(&bytes).is_ok());
    // Torn: the tail is missing.
    for keep in 0..bytes.len() {
        assert!(damaged(&bytes[..keep].to_vec()), "kept {}", keep);
    }
    // Grown: something was appended.
    let mut longer = bytes.clone();
    longer.push(0);
    assert!(damaged(&longer));
    // Foreign: the mark is not there.
    let mut foreign = bytes.clone();
    foreign[0] = b'{';
    assert!(damaged(&foreign));
    // A changed byte of the document does not fit the checksum.
    let mut changed = bytes.clone();
    changed[HEADER_LEN + 2] ^= 0x01;
    assert!(damaged(&changed));
    // A changed checksum or length does not fit the document.
    let mut changed = bytes.clone();
    changed[19] = changed[19].wrapping_add(1);
    assert!(damaged(&changed));
    let mut changed = bytes.clone();
    changed[15] = changed[15].wrapping_add(1);
    assert!(damaged(&changed));
    assert!(damaged(&vec![]));
    assert!(damaged(&b"not a state record at all, just text".to_vec()));
}

#[test]
fn a_changed_version_is_still_a_frame_of_that_version() {
    let mut bytes = encode_document(1, &b"x".to_vec());
    bytes[7] = 2;
    let (version, document) = decode_document(&bytes).unwrap();
    assert_eq!(version, 2);
    assert_eq!(document, b"x".to_vec());
}
