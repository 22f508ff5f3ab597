//! The front of a serialized automaton.
//!
//! A serialized automaton starts with a header of forty bytes: a label, the
//! number `0xFEFF` in the byte order of the machine that wrote it, and the
//! version of the layout.
//!
//! ```text
//! 0         k      32        36        40
//! | label |0| pad | 0xFEFF  | version | body ...
//! ```
//!
//! The label names the encoding. It ends with a zero byte and is padded to
//! thirty-two bytes; what the padding holds is not looked at. In front of a
//! dense automaton there may be up to seven zero bytes that align it.
//!
//! This module tells what is wrong with a header before the engine is asked
//! to decode the buffer. The engine validates the whole buffer again.

use vstd::prelude::*;
use vstd::endian::{endianness, Endian};
use vstd::slice::slice_subrange;
use crate::engine::{dense_decoded, sparse_decoded, u32_from_ne_bytes, u32_in_order};

verus! {

/// The length of a header.
pub const HEADER_LEN: usize = 40;

/// The length of the label with its terminator and padding.
pub const LABEL_LEN: usize = 32;

/// The number that shows the byte order of the writer.
pub const BYTE_ORDER_MARK: u32 = 0xFEFF;

/// The version of the layout that this crate reads.
pub const VERSION: u32 = 2;

/// The most zero bytes that may stand in front of a dense automaton.
pub const MAX_PADDING: usize = 7;

/// `rust-regex-automata-dfa-dense` and its terminator.
pub const DENSE_LABEL: [u8; 30] = [
    0x72, 0x75, 0x73, 0x74, 0x2d, 0x72, 0x65, 0x67, 0x65, 0x78, 0x2d, 0x61, 0x75, 0x74, 0x6f,
    0x6d, 0x61, 0x74, 0x61, 0x2d, 0x64, 0x66, 0x61, 0x2d, 0x64, 0x65, 0x6e, 0x73, 0x65, 0x00,
];

/// `rust-regex-automata-dfa-sparse` and its terminator.
pub const SPARSE_LABEL: [u8; 31] = [
    0x72, 0x75, 0x73, 0x74, 0x2d, 0x72, 0x65, 0x67, 0x65, 0x78, 0x2d, 0x61, 0x75, 0x74, 0x6f,
    0x6d, 0x61, 0x74, 0x61, 0x2d, 0x64, 0x66, 0x61, 0x2d, 0x73, 0x70, 0x61, 0x72, 0x73, 0x65,
    0x00,
];

/// Why a buffer does not decode to an automaton.
#[derive(Debug, Clone, PartialEq, Eq)]
pub enum DecodeError {
    /// The buffer is shorter than a header.
    Truncated,
    /// The label is not that of the encoding asked for.
    LabelMismatch,
    /// The automaton was written in the other byte order, or the mark is
    /// damaged.
    EndianMismatch,
    /// The automaton was written in another version of the layout.
    VersionMismatch,
    /// The header is in order and the engine rejects the buffer; the text is
    /// the engine's account. A buffer that was cut off behind the header is
    /// rejected so, and so is a dense automaton that lies off its boundary.
    Rejected(String),
}

/// The label of an encoding, with its terminator.
pub open spec fn label(sparse: bool) -> Seq<u8> {
    if sparse {
        SPARSE_LABEL@
    } else {
        DENSE_LABEL@
    }
}

/// Whether `bytes` starts with `prefix`.
pub open spec fn starts_with(bytes: Seq<u8>, prefix: Seq<u8>) -> bool {
    prefix.len() <= bytes.len() && bytes.take(prefix.len() as int) == prefix
}

/// What is wrong with the header at the front of `bytes`, if anything, on a
/// machine of the given byte order.
pub open spec fn header_error(bytes: Seq<u8>, sparse: bool, order: Endian) -> Option<
    DecodeError,
> {
    if bytes.len() < HEADER_LEN {
        Some(DecodeError::Truncated)
    } else if !starts_with(bytes, label(sparse)) {
        Some(DecodeError::LabelMismatch)
    } else if u32_in_order(bytes.subrange(32, 36), order) != BYTE_ORDER_MARK {
        Some(DecodeError::EndianMismatch)
    } else if u32_in_order(bytes.subrange(36, 40), order) != VERSION {
        Some(DecodeError::VersionMismatch)
    } else {
        None
    }
}

/// How many bytes the engine's decoder of an encoding reads from a buffer
/// without padding, or `None` where it rejects the bytes. The decoder of the
/// dense encoding also rejects a buffer that lies off a four-byte boundary,
/// whatever it holds.
pub open spec fn decoder_reads(bytes: Seq<u8>, sparse: bool, order: Endian) -> Option<usize> {
    if sparse {
        match sparse_decoded(bytes, order) {
            Ok(read) => Some(read),
            Err(_) => None,
        }
    } else {
        dense_decoded(bytes, order)
    }
}

/// The number of zero bytes at the front of `bytes`, counted up to `limit`.
pub open spec fn leading_zeros(bytes: Seq<u8>, limit: nat) -> nat
    decreases limit,
{
    if limit == 0 || bytes.len() == 0 || bytes[0] != 0 {
        0
    } else {
        1 + leading_zeros(bytes.skip(1), (limit - 1) as nat)
    }
}

/// The length of the padding in front of an automaton: none in front of a
/// sparse one.
pub open spec fn padding_of(bytes: Seq<u8>, sparse: bool) -> nat {
    if sparse {
        0
    } else {
        leading_zeros(bytes, MAX_PADDING as nat)
    }
}

/// The count of leading zeros is the length of the longest run of zero bytes
/// at the front that is no longer than the limit.
pub proof fn lemma_leading_zeros_is(bytes: Seq<u8>, limit: nat, count: nat)
    requires
        count <= limit,
        count <= bytes.len(),
        forall|i: int| 0 <= i < count ==> bytes[i] == 0,
        count == limit || count == bytes.len() || bytes[count as int] != 0,
    ensures
        leading_zeros(bytes, limit) == count,
    decreases limit,
{
    if count > 0 {
        let rest = bytes.skip(1);
        assert forall|i: int| 0 <= i < count - 1 implies rest[i] == 0 by {
            assert(rest[i] == bytes[i + 1]);
        }
        if count < limit && count < bytes.len() {
            assert(rest[count - 1] == bytes[count as int]);
        }
        lemma_leading_zeros_is(rest, (limit - 1) as nat, (count - 1) as nat);
    }
}

/// A buffer shorter than a header is truncated, whatever it holds and
/// whichever encoding is asked for.
pub proof fn lemma_short_buffer_is_truncated(bytes: Seq<u8>, sparse: bool, order: Endian)
    requires
        bytes.len() < HEADER_LEN,
    ensures
        header_error(bytes, sparse, order) == Some(DecodeError::Truncated),
{
}

/// A header that is in order for one encoding has the wrong label for the
/// other.
pub proof fn lemma_other_encoding_is_rejected(bytes: Seq<u8>, sparse: bool, order: Endian)
    requires
        header_error(bytes, sparse, order) is None,
    ensures
        header_error(bytes, !sparse, order) == Some(DecodeError::LabelMismatch),
{
    assert(bytes.take(label(sparse).len() as int)[24] == label(sparse)[24]);
    if starts_with(bytes, label(!sparse)) {
        assert(bytes.take(label(!sparse).len() as int)[24] == label(!sparse)[24]);
    }
}

/// A header that is in order on a machine of one byte order has a mismatched
/// mark on a machine of the other.
pub proof fn lemma_other_byte_order_is_rejected(bytes: Seq<u8>, sparse: bool)
    ensures
        header_error(bytes, sparse, Endian::Little) is None ==> header_error(
            bytes,
            sparse,
            Endian::Big,
        ) == Some(DecodeError::EndianMismatch),
        header_error(bytes, sparse, Endian::Big) is None ==> header_error(
            bytes,
            sparse,
            Endian::Little,
        ) == Some(DecodeError::EndianMismatch),
{
    if bytes.len() >= HEADER_LEN {
        let mark = bytes.subrange(32, 36);
        assert(0 <= mark[0] < 0x100 && 0 <= mark[1] < 0x100 && 0 <= mark[2] < 0x100 && 0
            <= mark[3] < 0x100);
    }
}

/// The part of a buffer behind its padding.
pub open spec fn body(bytes: Seq<u8>, sparse: bool) -> Seq<u8> {
    bytes.skip(padding_of(bytes, sparse) as int)
}

/// Whether the byte at `index` belongs to the label of an encoding, with its
/// terminator, or to the version.
pub open spec fn names_the_layout(sparse: bool, index: int) -> bool {
    0 <= index < label(sparse).len() || 36 <= index < 40
}

/// The count of leading zeros exceeds neither the limit nor the length.
pub proof fn lemma_leading_zeros_bounds(bytes: Seq<u8>, limit: nat)
    ensures
        leading_zeros(bytes, limit) <= limit,
        leading_zeros(bytes, limit) <= bytes.len(),
    decreases limit,
{
    if !(limit == 0 || bytes.len() == 0 || bytes[0] != 0) {
        lemma_leading_zeros_bounds(bytes.skip(1), (limit - 1) as nat);
    }
}

/// A damaged label or version is found out: a buffer that differs from one
/// with a header in order in a byte of the label or of the version, and in no
/// byte besides those, has a header that is not in order, also where the
/// damage made zero bytes at its front that pass for padding.
pub proof fn lemma_damaged_header_is_rejected(
    bytes: Seq<u8>,
    damaged: Seq<u8>,
    sparse: bool,
    order: Endian,
    at: int,
)
    requires
        header_error(bytes, sparse, order) is None,
        damaged.len() == bytes.len(),
        forall|i: int|
            0 <= i < bytes.len() && !names_the_layout(sparse, i) ==> damaged[i] == bytes[i],
        names_the_layout(sparse, at),
        damaged[at] != bytes[at],
    ensures
        header_error(body(damaged, sparse), sparse, order) is Some,
{
    let pad = padding_of(damaged, sparse) as int;
    let rest = damaged.skip(pad);
    lemma_leading_zeros_bounds(damaged, MAX_PADDING as nat);
    if header_error(rest, sparse, order) is None {
        let text = label(sparse);
        assert forall|j: int| 0 <= j < text.len() implies damaged[pad + j] == text[j] by {
            assert(rest.take(text.len() as int)[j] == rest[j]);
        }
        assert forall|j: int| 0 <= j < text.len() implies bytes[j] == text[j] by {
            assert(bytes.take(text.len() as int)[j] == bytes[j]);
        }
        let mark = bytes.subrange(32, 36);
        let found = rest.subrange(32, 36);
        assert(mark[0] == bytes[32] && mark[1] == bytes[33] && mark[2] == bytes[34] && mark[3]
            == bytes[35]);
        assert(found[0] == damaged[pad + 32] && found[1] == damaged[pad + 33] && found[2]
            == damaged[pad + 34] && found[3] == damaged[pad + 35]);
        if pad == 0 {
            assert(rest == damaged);
            if at >= text.len() {
                let version = bytes.subrange(36, 40);
                let other = damaged.subrange(36, 40);
                assert(version[at - 36] == bytes[at]);
                assert(other[at - 36] == damaged[at]);
                assert(version[0] == bytes[36] && version[1] == bytes[37] && version[2]
                    == bytes[38] && version[3] == bytes[39]);
                assert(other[0] == damaged[36] && other[1] == damaged[37] && other[2]
                    == damaged[38] && other[3] == damaged[39]);
            }
        } else {
            assert(!sparse);
            assert(damaged[32] == bytes[32] && damaged[33] == bytes[33] && damaged[34]
                == bytes[34] && damaged[35] == bytes[35]);
            assert(text[25] == 0x65 && text[26] == 0x6e && text[27] == 0x73 && text[28] == 0x65
                && text[29] == 0);
            if pad >= 3 {
                assert(damaged[pad + (32 - pad)] == text[32 - pad]);
            }
        }
        assert(false);
    }
}

/// A buffer whose header is in order starts with a byte that is not zero:
/// nothing of it would be taken for padding.
pub proof fn lemma_header_starts_with_letter(bytes: Seq<u8>, sparse: bool, order: Endian)
    requires
        header_error(bytes, sparse, order) is None,
    ensures
        bytes.len() >= HEADER_LEN,
        bytes[0] != 0,
{
    assert(bytes.take(label(sparse).len() as int)[0] == label(sparse)[0]);
}

/// Counts the zero bytes at the front of a buffer, up to seven.
pub fn padding_len(bytes: &[u8]) -> (r: usize)
    ensures
        r == leading_zeros(bytes@, MAX_PADDING as nat),
        r <= MAX_PADDING,
        r <= bytes@.len(),
{
    let mut count: usize = 0;
    assert(bytes@.skip(0) == bytes@);
    while count < MAX_PADDING && count < bytes.len() && bytes[count] == 0
        invariant
            count <= MAX_PADDING,
            count <= bytes@.len(),
            leading_zeros(bytes@, MAX_PADDING as nat) == count + leading_zeros(
                bytes@.skip(count as int),
                (MAX_PADDING - count) as nat,
            ),
        decreases MAX_PADDING - count,
    {
        assert(bytes@.skip(count as int).skip(1) == bytes@.skip(count + 1));
        count = count + 1;
    }
    count
}

/// Whether a buffer starts with the label of an encoding.
fn has_label(bytes: &[u8], sparse: bool) -> (r: bool)
    requires
        bytes@.len() >= LABEL_LEN,
    ensures
        r == starts_with(bytes@, label(sparse)),
{
    let len: usize = if sparse {
        SPARSE_LABEL.len()
    } else {
        DENSE_LABEL.len()
    };
    let mut i: usize = 0;
    while i < len
        invariant
            i <= len,
            len == label(sparse).len(),
            len <= LABEL_LEN <= bytes@.len(),
            forall|j: int| 0 <= j < i ==> bytes@[j] == label(sparse)[j],
        decreases len - i,
    {
        let wanted: u8 = if sparse {
            SPARSE_LABEL[i]
        } else {
            DENSE_LABEL[i]
        };
        if bytes[i] != wanted {
            assert(bytes@.take(len as int)[i as int] != label(sparse)[i as int]);
            return false;
        }
        i = i + 1;
    }
    assert(bytes@.take(len as int) =~= label(sparse));
    true
}

/// Reads four bytes at `at` as a number in the byte order of this machine.
fn read_u32(bytes: &[u8], at: usize) -> (r: u32)
    requires
        at + 4 <= bytes@.len(),
    ensures
        r as int == u32_in_order(bytes@.subrange(at as int, at + 4), endianness()),
{
    let word: [u8; 4] = [bytes[at], bytes[at + 1], bytes[at + 2], bytes[at + 3]];
    assert(word@ =~= bytes@.subrange(at as int, at + 4));
    u32_from_ne_bytes(word)
}

/// Inspects the header at the front of a buffer.
///
/// It fails on a buffer shorter than a header, then on a label other than
/// that of the encoding asked for, then on a byte-order mark that does not
/// read as `0xFEFF` on this machine, then on a version other than the one
/// this crate reads.
pub fn check_header(bytes: &[u8], sparse: bool) -> (r: Result<(), DecodeError>)
    ensures
        match header_error(bytes@, sparse, endianness()) {
            Some(error) => r matches Err(found) && found == error,
            None => r is Ok,
        },
{
    if bytes.len() < HEADER_LEN {
        return Err(DecodeError::Truncated);
    }
    if !has_label(bytes, sparse) {
        return Err(DecodeError::LabelMismatch);
    }
    if read_u32(bytes, LABEL_LEN) != BYTE_ORDER_MARK {
        return Err(DecodeError::EndianMismatch);
    }
    if read_u32(bytes, LABEL_LEN + 4) != VERSION {
        return Err(DecodeError::VersionMismatch);
    }
    Ok(())
}

/// The part of a buffer behind its padding.
pub fn skip_padding<'a>(bytes: &'a [u8], sparse: bool) -> (r: (&'a [u8], usize))
    ensures
        r.1 == padding_of(bytes@, sparse),
        r.1 <= bytes@.len(),
        r.0@ == bytes@.skip(r.1 as int),
{
    if sparse {
        assert(bytes@.skip(0) == bytes@);
        (bytes, 0)
    } else {
        let pad = padding_len(bytes);
        (slice_subrange(bytes, pad, bytes.len()), pad)
    }
}

} // verus!
