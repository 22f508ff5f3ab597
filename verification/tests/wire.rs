use dfa_embed::compile::compile_dfa;
use dfa_embed::wire::{
    check_header, padding_len, skip_padding, DecodeError, BYTE_ORDER_MARK, DENSE_LABEL,
    HEADER_LEN, LABEL_LEN, MAX_PADDING, SPARSE_LABEL, VERSION,
};

fn header(sparse: bool) -> Vec<u8> {
    let mut bytes = if sparse { SPARSE_LABEL.to_vec() } else { DENSE_LABEL.to_vec() };
    bytes.resize(LABEL_LEN, 0);
    bytes.extend_from_slice(&BYTE_ORDER_MARK.to_ne_bytes());
    bytes.extend_from_slice(&VERSION.to_ne_bytes());
    bytes
}

#[test]
fn the_constants_describe_the_layout() {
    assert_eq!(HEADER_LEN, 40);
    assert_eq!(LABEL_LEN, 32);
    assert_eq!(BYTE_ORDER_MARK, 0xFEFF);
    assert_eq!(VERSION, 2);
    assert_eq!(MAX_PADDING, 7);
    assert_eq!(&DENSE_LABEL[..], b"rust-regex-automata-dfa-dense\0");
    assert_eq!(&SPARSE_LABEL[..], b"rust-regex-automata-dfa-sparse\0");
}

#[test]
fn padding_len_counts_leading_zeros() {
    assert_eq!(padding_len(&[]), 0);
    assert_eq!(padding_len(&[1, 0, 0]), 0);
    assert_eq!(padding_len(&[0, 0, 0, 5, 0]), 3);
    assert_eq!(padding_len(&[0, 0]), 2);
}

#[test]
fn padding_len_stops_at_seven() {
    assert_eq!(padding_len(&[0; 7]), 7);
    assert_eq!(padding_len(&[0; 8]), 7);
    assert_eq!(padding_len(&[0, 0, 0, 0, 0, 0, 0, 9]), 7);
    assert_eq!(padding_len(&[0; 100]), 7);
}

#[test]
fn skip_padding_leaves_a_sparse_buffer_alone() {
    let bytes = [0u8, 0, 3, 4];
    assert_eq!(skip_padding(&bytes, true), (&bytes[..], 0));
    assert_eq!(skip_padding(&bytes, false), (&bytes[2..], 2));
}

#[test]
fn check_header_accepts_a_header() {
    assert_eq!(check_header(&header(false), false), Ok(()));
    assert_eq!(check_header(&header(true), true), Ok(()));
}

#[test]
fn check_header_accepts_any_label_padding() {
    let mut bytes = header(false);
    bytes[30] = 0xAA;
    bytes[31] = 0xBB;
    assert_eq!(check_header(&bytes, false), Ok(()));
    let mut bytes = header(true);
    bytes[31] = 0xCC;
    assert_eq!(check_header(&bytes, true), Ok(()));
}

#[test]
fn check_header_accepts_compiled_bytes() {
    for sparse in [false, true] {
        let bytes = compile_dfa("foo[0-9]+", sparse, true).unwrap();
        assert_eq!(check_header(&bytes, sparse), Ok(()));
    }
}

#[test]
fn check_header_rejects_a_short_buffer() {
    for sparse in [false, true] {
        let bytes = header(sparse);
        for len in [0, 1, 29, 32, 36, 39] {
            assert_eq!(check_header(&bytes[..len], sparse), Err(DecodeError::Truncated));
        }
    }
}

#[test]
fn check_header_rejects_the_other_label() {
    assert_eq!(check_header(&header(true), false), Err(DecodeError::LabelMismatch));
    assert_eq!(check_header(&header(false), true), Err(DecodeError::LabelMismatch));
}

#[test]
fn check_header_rejects_a_damaged_label() {
    for sparse in [false, true] {
        let text = if sparse { 30 } else { 29 };
        for at in [0, 4, text - 1, text] {
            let mut bytes = header(sparse);
            bytes[at] ^= 0x20;
            assert_eq!(check_header(&bytes, sparse), Err(DecodeError::LabelMismatch));
        }
    }
}

#[test]
fn check_header_rejects_the_other_byte_order() {
    for sparse in [false, true] {
        let mut bytes = header(sparse);
        bytes[32..36].reverse();
        assert_eq!(check_header(&bytes, sparse), Err(DecodeError::EndianMismatch));
        bytes[36..40].reverse();
        assert_eq!(check_header(&bytes, sparse), Err(DecodeError::EndianMismatch));
    }
}

#[test]
fn check_header_rejects_another_version() {
    for sparse in [false, true] {
        for version in [0u32, 1, 3, 0x0200_0000] {
            let mut bytes = header(sparse);
            bytes[36..40].copy_from_slice(&version.to_ne_bytes());
            assert_eq!(check_header(&bytes, sparse), Err(DecodeError::VersionMismatch));
        }
    }
}

#[test]
fn check_header_reports_the_first_fault() {
    let mut bytes = header(true);
    bytes[0] = b'R';
    bytes[32] ^= 0xFF;
    bytes[36] ^= 0xFF;
    assert_eq!(check_header(&bytes, true), Err(DecodeError::LabelMismatch));
    assert_eq!(check_header(&bytes[..39], true), Err(DecodeError::Truncated));
    bytes[0] = b'r';
    assert_eq!(check_header(&bytes, true), Err(DecodeError::EndianMismatch));
}
