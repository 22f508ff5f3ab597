//! The automaton engine behind this crate: `regex_automata`.
//!
//! Everything in this file is believed, not proved. The engine's types are
//! opaque here, and each function below makes one call into the engine. What
//! a call returns is given a name wherever it depends on the arguments alone,
//! so that the rest of the crate can say exactly what it computes from it.
//!
//! An automaton is modelled by bytes. An owned automaton (one that the
//! builder made) is modelled by its serialized form in a given byte order. A
//! borrowed automaton (one decoded in place) is modelled by the bytes that it
//! borrows. Serialized forms never include alignment padding. A search is
//! named by the bytes of the automaton that runs it, so that an owned
//! automaton and the one decoded from its serialized form search alike: that
//! is the engine's promise that what it serialized is decoded correctly.

use vstd::prelude::*;
use vstd::endian::{endianness, Endian};
use crate::wire::header_error;

verus! {

/// `regex_automata::dfa::dense::DFA`: a transition table with one row per
/// state. Opaque.
#[verifier::external_type_specification]
#[verifier::external_body]
#[verifier::reject_recursive_types(T)]
pub struct ExDenseDfa<T>(regex_automata::dfa::dense::DFA<T>);

/// `regex_automata::dfa::sparse::DFA`: a list of byte ranges per state.
/// Opaque.
#[verifier::external_type_specification]
#[verifier::external_body]
#[verifier::reject_recursive_types(T)]
pub struct ExSparseDfa<T>(regex_automata::dfa::sparse::DFA<T>);

/// `regex_automata::dfa::regex::Regex`: a forward and a reverse automaton.
/// Opaque.
#[verifier::external_type_specification]
#[verifier::external_body]
#[verifier::reject_recursive_types(A)]
pub struct ExRegex<A>(regex_automata::dfa::regex::Regex<A>);

/// `regex_automata::dfa::dense::BuildError`. Opaque.
#[verifier::external_type_specification]
#[verifier::external_body]
pub struct ExBuildError(regex_automata::dfa::dense::BuildError);

/// `regex_automata::util::wire::DeserializeError`. Opaque.
#[verifier::external_type_specification]
#[verifier::external_body]
pub struct ExDeserializeError(regex_automata::util::wire::DeserializeError);

/// `regex_automata::MatchError`. Opaque.
#[verifier::external_type_specification]
#[verifier::external_body]
pub struct ExMatchError(regex_automata::MatchError);

/// The serialized form of an owned dense automaton in the given byte order.
pub uninterp spec fn dense_wire(
    dfa: regex_automata::dfa::dense::DFA<Vec<u32>>,
    order: Endian,
) -> Seq<u8>;

/// The serialized form of an owned sparse automaton in the given byte order.
pub uninterp spec fn sparse_wire(
    dfa: regex_automata::dfa::sparse::DFA<Vec<u8>>,
    order: Endian,
) -> Seq<u8>;

/// The serialized forms of the forward and the reverse automaton of an owned
/// regex, in the given byte order.
pub uninterp spec fn regex_wire(
    re: regex_automata::dfa::regex::Regex<regex_automata::dfa::dense::DFA<Vec<u32>>>,
    order: Endian,
) -> (Seq<u8>, Seq<u8>);

/// Whether a build error says that a limit of size was exceeded.
pub uninterp spec fn failure_is_limit(error: regex_automata::dfa::dense::BuildError) -> bool;

/// The `Debug` form of a build error.
pub uninterp spec fn failure_text(error: regex_automata::dfa::dense::BuildError) -> Seq<char>;

/// A build error as plain values: whether it is about a limit, and its text.
pub open spec fn failure_view(error: regex_automata::dfa::dense::BuildError) -> (bool, Seq<char>) {
    (failure_is_limit(error), failure_text(error))
}

/// What the dense builder makes of a pattern: the serialized form of the
/// automaton, or the error that the builder reports.
pub uninterp spec fn built_dense(pattern: Seq<char>, minimize: bool, order: Endian) -> Result<
    Seq<u8>,
    (bool, Seq<char>),
>;

/// What the regex builder makes of a pattern: the serialized forms of the
/// forward and the reverse automaton, or the error that the builder reports.
pub uninterp spec fn built_regex(pattern: Seq<char>, minimize: bool, order: Endian) -> Result<
    (Seq<u8>, Seq<u8>),
    (bool, Seq<char>),
>;

/// The serialized form of the sparse automaton that a dense automaton, given
/// by its serialized form, converts to, or the error that the conversion
/// reports.
pub uninterp spec fn sparse_form(dense: Seq<u8>, order: Endian) -> Result<
    Seq<u8>,
    (bool, Seq<char>),
>;

/// The `Display` form of a decoding error.
pub uninterp spec fn rejection_text(error: regex_automata::util::wire::DeserializeError) -> Seq<
    char,
>;

/// What a build of a dense automaton came to, as plain values.
pub open spec fn dense_outcome(
    built: Result<
        regex_automata::dfa::dense::DFA<Vec<u32>>,
        regex_automata::dfa::dense::BuildError,
    >,
    order: Endian,
) -> Result<Seq<u8>, (bool, Seq<char>)> {
    match built {
        Ok(dfa) => Ok(dense_wire(dfa, order)),
        Err(error) => Err(failure_view(error)),
    }
}

/// What a build of a regex came to, as plain values.
pub open spec fn regex_outcome(
    built: Result<
        regex_automata::dfa::regex::Regex<regex_automata::dfa::dense::DFA<Vec<u32>>>,
        regex_automata::dfa::dense::BuildError,
    >,
    order: Endian,
) -> Result<(Seq<u8>, Seq<u8>), (bool, Seq<char>)> {
    match built {
        Ok(re) => Ok(regex_wire(re, order)),
        Err(error) => Err(failure_view(error)),
    }
}

/// What a conversion to the sparse encoding came to, as plain values.
pub open spec fn sparse_outcome(
    converted: Result<
        regex_automata::dfa::sparse::DFA<Vec<u8>>,
        regex_automata::dfa::dense::BuildError,
    >,
    order: Endian,
) -> Result<Seq<u8>, (bool, Seq<char>)> {
    match converted {
        Ok(dfa) => Ok(sparse_wire(dfa, order)),
        Err(error) => Err(failure_view(error)),
    }
}

/// What a search came to, as plain values: `None` where it gave up.
pub open spec fn scan_outcome(found: Result<Option<usize>, regex_automata::MatchError>) -> Option<
    Option<usize>,
> {
    match found {
        Ok(offset) => Some(offset),
        Err(_) => None,
    }
}

/// The bytes that a dense automaton decoded in place reads, from its label on.
pub uninterp spec fn dense_source(dfa: regex_automata::dfa::dense::DFA<&[u32]>) -> Seq<u8>;

/// The bytes that a sparse automaton decoded in place reads, from its label
/// on.
pub uninterp spec fn sparse_source(dfa: regex_automata::dfa::sparse::DFA<&[u8]>) -> Seq<u8>;

/// How many bytes the sparse decoder reads from a buffer on a machine of the
/// given byte order, or the text of the error that it rejects the buffer
/// with.
pub uninterp spec fn sparse_decoded(bytes: Seq<u8>, order: Endian) -> Result<usize, Seq<char>>;

/// How many bytes the dense decoder reads, on a machine of the given byte
/// order, from a buffer that starts on a four-byte boundary with a byte that
/// is not zero; `None` where it rejects such a buffer.
pub uninterp spec fn dense_decoded(bytes: Seq<u8>, order: Endian) -> Option<usize>;

/// The result of a forward search over the whole haystack with an automaton
/// given by the bytes it was decoded from, or by its serialized form: `None`
/// where the search gives up, else the end of the leftmost match, if there is
/// one.
pub uninterp spec fn forward_scan(
    sparse: bool,
    order: Endian,
    automaton: Seq<u8>,
    haystack: Seq<u8>,
    anchored: bool,
) -> Option<Option<usize>>;

/// The result of a reverse search from `end` back to `start` in the haystack
/// with an automaton given by the bytes it was decoded from, or by its
/// serialized form: `None` where the search gives up, else the start of the
/// match that the automaton finds, if there is one. An anchored search
/// accepts only a match that ends at `end`.
pub uninterp spec fn reverse_scan(
    sparse: bool,
    order: Endian,
    automaton: Seq<u8>,
    haystack: Seq<u8>,
    start: usize,
    end: usize,
    anchored: bool,
) -> Option<Option<usize>>;

/// Whether two buffers agree in their first `count` bytes.
pub open spec fn agree(first: Seq<u8>, second: Seq<u8>, count: usize) -> bool {
    &&& count <= first.len()
    &&& count <= second.len()
    &&& first.take(count as int) == second.take(count as int)
}

/// The number that four bytes stand for in the given byte order.
pub open spec fn u32_in_order(bytes: Seq<u8>, order: Endian) -> int
    recommends
        bytes.len() == 4,
{
    match order {
        Endian::Little => bytes[0] + 0x100 * bytes[1] + 0x1_0000 * bytes[2] + 0x100_0000
            * bytes[3],
        Endian::Big => bytes[3] + 0x100 * bytes[2] + 0x1_0000 * bytes[1] + 0x100_0000
            * bytes[0],
    }
}

/// `u32::from_ne_bytes`: the number that four bytes stand for in the byte
/// order of this machine.
#[verifier::external_body]
pub(crate) fn u32_from_ne_bytes(bytes: [u8; 4]) -> (r: u32)
    ensures
        r as int == u32_in_order(bytes@, endianness()),
{
    u32::from_ne_bytes(bytes)
}

/// `dense::Builder::build`, with minimization configured as asked and every
/// other option at its default. The builder keeps no state between calls and
/// numbers states in the order in which it finds them, so the automaton is
/// determined by the pattern and the option.
#[verifier::external_body]
pub(crate) fn build_dense(pattern: &str, minimize: bool) -> (r: Result<
    regex_automata::dfa::dense::DFA<Vec<u32>>,
    regex_automata::dfa::dense::BuildError,
>)
    ensures
        dense_outcome(r, endianness()) == built_dense(pattern@, minimize, endianness()),
{
    let config = regex_automata::dfa::dense::Config::new().minimize(minimize);
    regex_automata::dfa::dense::Builder::new().configure(config).build(pattern)
}

/// `regex::Builder::build`, with minimization of both automata configured as
/// asked and every other option at its default.
#[verifier::external_body]
pub(crate) fn build_regex(pattern: &str, minimize: bool) -> (r: Result<
    regex_automata::dfa::regex::Regex<regex_automata::dfa::dense::DFA<Vec<u32>>>,
    regex_automata::dfa::dense::BuildError,
>)
    ensures
        regex_outcome(r, endianness()) == built_regex(pattern@, minimize, endianness()),
{
    let config = regex_automata::dfa::dense::Config::new().minimize(minimize);
    regex_automata::dfa::regex::Regex::builder().dense(config).build(pattern)
}

/// `Regex::forward`: the automaton that finds where a match ends.
#[verifier::external_body]
pub(crate) fn regex_forward(
    re: &regex_automata::dfa::regex::Regex<regex_automata::dfa::dense::DFA<Vec<u32>>>,
) -> (r: &regex_automata::dfa::dense::DFA<Vec<u32>>)
    ensures
        dense_wire(*r, endianness()) == regex_wire(*re, endianness()).0,
{
    re.forward()
}

/// `Regex::reverse`: the automaton that finds where a match starts.
#[verifier::external_body]
pub(crate) fn regex_reverse(
    re: &regex_automata::dfa::regex::Regex<regex_automata::dfa::dense::DFA<Vec<u32>>>,
) -> (r: &regex_automata::dfa::dense::DFA<Vec<u32>>)
    ensures
        dense_wire(*r, endianness()) == regex_wire(*re, endianness()).1,
{
    re.reverse()
}

/// `dense::DFA::to_sparse`. The conversion reads nothing of the dense
/// automaton but what its serialized form holds.
#[verifier::external_body]
pub(crate) fn dense_to_sparse(dfa: &regex_automata::dfa::dense::DFA<Vec<u32>>) -> (r: Result<
    regex_automata::dfa::sparse::DFA<Vec<u8>>,
    regex_automata::dfa::dense::BuildError,
>)
    ensures
        sparse_outcome(r, endianness()) == sparse_form(
            dense_wire(*dfa, endianness()),
            endianness(),
        ),
{
    dfa.to_sparse()
}

/// `dense::DFA::to_bytes_native_endian`: a buffer and the number of bytes at
/// its front that are padding. The padding makes the rest start at an address
/// that is a multiple of four, so its length depends on where the buffer was
/// allocated; it is at most three bytes, all zero. The rest is the serialized
/// form, which the serializer starts with the label of the dense encoding,
/// the byte-order mark and the version. The engine promises that its decoder
/// accepts what its serializer wrote, and the decoder reads part for part
/// what the serializer wrote, so it reads all of it.
#[verifier::external_body]
pub(crate) fn dense_to_bytes(dfa: &regex_automata::dfa::dense::DFA<Vec<u32>>) -> (r: (
    Vec<u8>,
    usize,
))
    ensures
        r.1 <= 3,
        r.1 <= r.0@.len(),
        forall|i: int| 0 <= i < r.1 ==> r.0@[i] == 0,
        r.0@.skip(r.1 as int) == dense_wire(*dfa, endianness()),
        header_error(r.0@.skip(r.1 as int), false, endianness()) is None,
        dense_decoded(r.0@.skip(r.1 as int), endianness()) matches Some(read) && read + r.1
            == r.0@.len(),
{
    dfa.to_bytes_native_endian()
}

/// `sparse::DFA::to_bytes_native_endian`: the serialized form, which needs no
/// padding. The serializer starts it with the label of the sparse encoding,
/// the byte-order mark and the version. The engine promises that its decoder
/// accepts what its serializer wrote, and the decoder reads part for part
/// what the serializer wrote, so it reads all of it.
#[verifier::external_body]
pub(crate) fn sparse_to_bytes(dfa: &regex_automata::dfa::sparse::DFA<Vec<u8>>) -> (r: Vec<u8>)
    ensures
        r@ == sparse_wire(*dfa, endianness()),
        header_error(r@, true, endianness()) is None,
        sparse_decoded(r@, endianness()) matches Ok(read) && read == r@.len(),
{
    dfa.to_bytes_native_endian()
}

/// `BuildError::is_size_limit_exceeded`: whether the build failed on a limit
/// of size rather than on the pattern.
#[verifier::external_body]
pub(crate) fn size_limit_exceeded(error: &regex_automata::dfa::dense::BuildError) -> (r: bool)
    ensures
        r == failure_is_limit(*error),
{
    error.is_size_limit_exceeded()
}

/// The `Debug` form of a `BuildError`.
#[verifier::external_body]
pub(crate) fn describe_build_error(error: &regex_automata::dfa::dense::BuildError) -> (r: String)
    ensures
        r@ == failure_text(*error),
{
    format!("{:?}", error)
}

/// `dense::DFA::from_bytes` on a buffer that does not start with a zero byte,
/// so that the decoder skips no padding. Whether it accepts the buffer
/// depends on the buffer's address, which must be a multiple of four, and
/// then on the bytes. The automaton borrows the bytes that the decoder read.
/// What lies behind them is not read: the decoder takes as many bytes from
/// every buffer that starts with them. Of a rejection nothing is stated: its
/// text holds the address where the buffer lies off a boundary.
#[verifier::external_body]
pub(crate) fn dense_from_bytes<'a>(bytes: &'a [u8]) -> (r: Result<
    (regex_automata::dfa::dense::DFA<&'a [u32]>, usize),
    regex_automata::util::wire::DeserializeError,
>)
    requires
        bytes@.len() > 0,
        bytes@[0] != 0,
    ensures
        r matches Ok(decoded) ==> {
            &&& dense_decoded(bytes@, endianness()) matches Some(read) && read == decoded.1
            &&& decoded.1 <= bytes@.len()
            &&& dense_source(decoded.0) == bytes@.take(decoded.1 as int)
            &&& forall|other: Seq<u8>| #[trigger]
                agree(bytes@, other, decoded.1) ==> dense_decoded(other, endianness()) == Some(
                    decoded.1,
                )
        },
{
    regex_automata::dfa::dense::DFA::from_bytes(bytes)
}

/// `sparse::DFA::from_bytes`. Sparse automata need no alignment, so whether
/// the decoder accepts a buffer depends on the bytes alone. The automaton
/// borrows the bytes that the decoder read. What lies behind them is not
/// read: the decoder takes as many bytes from every buffer that starts with
/// them.
#[verifier::external_body]
pub(crate) fn sparse_from_bytes<'a>(bytes: &'a [u8]) -> (r: Result<
    (regex_automata::dfa::sparse::DFA<&'a [u8]>, usize),
    regex_automata::util::wire::DeserializeError,
>)
    ensures
        match r {
            Ok(decoded) => {
                &&& sparse_decoded(bytes@, endianness()) matches Ok(read) && read == decoded.1
                &&& decoded.1 <= bytes@.len()
                &&& sparse_source(decoded.0) == bytes@.take(decoded.1 as int)
                &&& forall|other: Seq<u8>| #[trigger]
                    agree(bytes@, other, decoded.1) ==> (sparse_decoded(
                        other,
                        endianness(),
                    ) matches Ok(read) && read == decoded.1)
            },
            Err(error) => sparse_decoded(bytes@, endianness()) matches Err(text) && text
                == rejection_text(error),
        },
{
    regex_automata::dfa::sparse::DFA::from_bytes(bytes)
}

/// The `Display` form of a `DeserializeError`.
#[verifier::external_body]
pub(crate) fn describe_decode_error(error: &regex_automata::util::wire::DeserializeError) -> (r:
    String)
    ensures
        r@ == rejection_text(*error),
{
    format!("{}", error)
}

/// `Automaton::try_search_fwd` with a dense automaton, over the whole
/// haystack, anchored at its start or not.
#[verifier::external_body]
pub(crate) fn dense_search_fwd(
    dfa: &regex_automata::dfa::dense::DFA<&[u32]>,
    haystack: &[u8],
    anchored: bool,
) -> (r: Result<Option<usize>, regex_automata::MatchError>)
    ensures
        scan_outcome(r) == forward_scan(
            false,
            endianness(),
            dense_source(*dfa),
            haystack@,
            anchored,
        ),
{
    let mode = match anchored {
        true => regex_automata::Anchored::Yes,
        false => regex_automata::Anchored::No,
    };
    let input = regex_automata::Input::new(haystack).anchored(mode);
    regex_automata::dfa::Automaton::try_search_fwd(dfa, &input).map(|m| m.map(|h| h.offset()))
}

/// `Automaton::try_search_fwd` with a sparse automaton, over the whole
/// haystack, anchored at its start or not.
#[verifier::external_body]
pub(crate) fn sparse_search_fwd(
    dfa: &regex_automata::dfa::sparse::DFA<&[u8]>,
    haystack: &[u8],
    anchored: bool,
) -> (r: Result<Option<usize>, regex_automata::MatchError>)
    ensures
        scan_outcome(r) == forward_scan(
            true,
            endianness(),
            sparse_source(*dfa),
            haystack@,
            anchored,
        ),
{
    let mode = match anchored {
        true => regex_automata::Anchored::Yes,
        false => regex_automata::Anchored::No,
    };
    let input = regex_automata::Input::new(haystack).anchored(mode);
    regex_automata::dfa::Automaton::try_search_fwd(dfa, &input).map(|m| m.map(|h| h.offset()))
}

/// `Automaton::try_search_rev` with a dense automaton, over the haystack from
/// `end` back to `start`, anchored at `end` or not. The engine panics on a
/// span that ends beyond the haystack or before it starts.
#[verifier::external_body]
pub(crate) fn dense_search_rev(
    dfa: &regex_automata::dfa::dense::DFA<&[u32]>,
    haystack: &[u8],
    start: usize,
    end: usize,
    anchored: bool,
) -> (r: Result<Option<usize>, regex_automata::MatchError>)
    requires
        start <= end <= haystack@.len(),
    ensures
        scan_outcome(r) == reverse_scan(
            false,
            endianness(),
            dense_source(*dfa),
            haystack@,
            start,
            end,
            anchored,
        ),
{
    let mode = match anchored {
        true => regex_automata::Anchored::Yes,
        false => regex_automata::Anchored::No,
    };
    let input = regex_automata::Input::new(haystack).span(start..end).anchored(mode);
    regex_automata::dfa::Automaton::try_search_rev(dfa, &input).map(|m| m.map(|h| h.offset()))
}

/// `Automaton::try_search_rev` with a sparse automaton, over the haystack from
/// `end` back to `start`, anchored at `end` or not. The engine panics on a
/// span that ends beyond the haystack or before it starts.
#[verifier::external_body]
pub(crate) fn sparse_search_rev(
    dfa: &regex_automata::dfa::sparse::DFA<&[u8]>,
    haystack: &[u8],
    start: usize,
    end: usize,
    anchored: bool,
) -> (r: Result<Option<usize>, regex_automata::MatchError>)
    requires
        start <= end <= haystack@.len(),
    ensures
        scan_outcome(r) == reverse_scan(
            true,
            endianness(),
            sparse_source(*dfa),
            haystack@,
            start,
            end,
            anchored,
        ),
{
    let mode = match anchored {
        true => regex_automata::Anchored::Yes,
        false => regex_automata::Anchored::No,
    };
    let input = regex_automata::Input::new(haystack).span(start..end).anchored(mode);
    regex_automata::dfa::Automaton::try_search_rev(dfa, &input).map(|m| m.map(|h| h.offset()))
}

/// `dense::DFA::to_owned`: a copy of an automaton.
#[verifier::external_body]
pub(crate) fn dense_to_owned(dfa: &regex_automata::dfa::dense::DFA<Vec<u32>>) -> (r:
    regex_automata::dfa::dense::DFA<Vec<u32>>)
    ensures
        dense_wire(r, endianness()) == dense_wire(*dfa, endianness()),
{
    dfa.to_owned()
}

/// `Automaton::try_search_fwd` with an owned dense automaton, over the whole
/// haystack, anchored at its start or not. The engine promises that what it
/// serialized is decoded correctly: the automaton decoded from the
/// serialized form holds the tables of this one, and a search reads nothing
/// else, so both find the same.
#[verifier::external_body]
pub(crate) fn built_dense_search_fwd(
    dfa: &regex_automata::dfa::dense::DFA<Vec<u32>>,
    haystack: &[u8],
    anchored: bool,
) -> (r: Result<Option<usize>, regex_automata::MatchError>)
    ensures
        scan_outcome(r) == forward_scan(
            false,
            endianness(),
            dense_wire(*dfa, endianness()),
            haystack@,
            anchored,
        ),
{
    let mode = match anchored {
        true => regex_automata::Anchored::Yes,
        false => regex_automata::Anchored::No,
    };
    let input = regex_automata::Input::new(haystack).anchored(mode);
    regex_automata::dfa::Automaton::try_search_fwd(dfa, &input).map(|m| m.map(|h| h.offset()))
}

/// `Automaton::try_search_rev` with an owned dense automaton, over the
/// haystack from `end` back to `start`, anchored at `end` or not. It finds
/// what the automaton decoded from the serialized form finds. The engine
/// panics on a span that ends beyond the haystack or before it starts.
#[verifier::external_body]
pub(crate) fn built_dense_search_rev(
    dfa: &regex_automata::dfa::dense::DFA<Vec<u32>>,
    haystack: &[u8],
    start: usize,
    end: usize,
    anchored: bool,
) -> (r: Result<Option<usize>, regex_automata::MatchError>)
    requires
        start <= end <= haystack@.len(),
    ensures
        scan_outcome(r) == reverse_scan(
            false,
            endianness(),
            dense_wire(*dfa, endianness()),
            haystack@,
            start,
            end,
            anchored,
        ),
{
    let mode = match anchored {
        true => regex_automata::Anchored::Yes,
        false => regex_automata::Anchored::No,
    };
    let input = regex_automata::Input::new(haystack).span(start..end).anchored(mode);
    regex_automata::dfa::Automaton::try_search_rev(dfa, &input).map(|m| m.map(|h| h.offset()))
}

/// `Automaton::try_search_fwd` with an owned sparse automaton, over the whole
/// haystack, anchored at its start or not. The engine promises that what it
/// serialized is decoded correctly: the automaton decoded from the
/// serialized form holds the tables of this one, and a search reads nothing
/// else, so both find the same.
#[verifier::external_body]
pub(crate) fn built_sparse_search_fwd(
    dfa: &regex_automata::dfa::sparse::DFA<Vec<u8>>,
    haystack: &[u8],
    anchored: bool,
) -> (r: Result<Option<usize>, regex_automata::MatchError>)
    ensures
        scan_outcome(r) == forward_scan(
            true,
            endianness(),
            sparse_wire(*dfa, endianness()),
            haystack@,
            anchored,
        ),
{
    let mode = match anchored {
        true => regex_automata::Anchored::Yes,
        false => regex_automata::Anchored::No,
    };
    let input = regex_automata::Input::new(haystack).anchored(mode);
    regex_automata::dfa::Automaton::try_search_fwd(dfa, &input).map(|m| m.map(|h| h.offset()))
}

/// `Automaton::try_search_rev` with an owned sparse automaton, over the
/// haystack from `end` back to `start`, anchored at `end` or not. It finds
/// what the automaton decoded from the serialized form finds. The engine
/// panics on a span that ends beyond the haystack or before it starts.
#[verifier::external_body]
pub(crate) fn built_sparse_search_rev(
    dfa: &regex_automata::dfa::sparse::DFA<Vec<u8>>,
    haystack: &[u8],
    start: usize,
    end: usize,
    anchored: bool,
) -> (r: Result<Option<usize>, regex_automata::MatchError>)
    requires
        start <= end <= haystack@.len(),
    ensures
        scan_outcome(r) == reverse_scan(
            true,
            endianness(),
            sparse_wire(*dfa, endianness()),
            haystack@,
            start,
            end,
            anchored,
        ),
{
    let mode = match anchored {
        true => regex_automata::Anchored::Yes,
        false => regex_automata::Anchored::No,
    };
    let input = regex_automata::Input::new(haystack).span(start..end).anchored(mode);
    regex_automata::dfa::Automaton::try_search_rev(dfa, &input).map(|m| m.map(|h| h.offset()))
}

} // verus!
