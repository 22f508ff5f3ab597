//! Automata decoded in place, and the search for a match with two of them.
//!
//! An [`Automaton`] is either built from a pattern, and then owns its
//! tables, or decoded from a buffer, and then borrows the buffer: decoding
//! copies nothing. An automaton that was built and the one decoded from its
//! serialized form find the same. A [`Matcher`] pairs an automaton that finds where the
//! leftmost match ends with one that, run backwards from there, finds where
//! it starts. Which of several matches at one start is reported was settled
//! when the pattern was compiled: the one that a backtracking engine would
//! find first.
//!
//! A search reads the haystack once forwards and, where that finds the end of
//! a match, once backwards from the end. Nothing that the engine reports is
//! taken on trust: an offset outside the haystack, or a reverse automaton
//! that finds no start for a match that the forward automaton found, is an
//! error, never a span.
//!
//! The engine has a pairing of its own. Its search makes the same two calls
//! and panics where the reverse automaton finds no start, which automata
//! decoded from any two buffers can bring about; so the two calls are made
//! from here, and what follows from their outcomes is decided here.

use vstd::prelude::*;
use vstd::endian::endianness;
use crate::engine::{
    agree, build_dense, build_regex, built_dense_search_fwd, built_dense_search_rev,
    built_sparse_search_fwd, built_sparse_search_rev, dense_from_bytes, dense_search_fwd,
    dense_search_rev, dense_source, dense_to_owned, dense_to_sparse, dense_wire,
    describe_decode_error, forward_scan, regex_forward, regex_reverse, reverse_scan,
    sparse_decoded, sparse_from_bytes, sparse_search_fwd, sparse_search_rev, sparse_source,
    sparse_wire,
};
use crate::compile::{
    CompileError, CompileErrorView, as_compile_error, compile_err, dfa_image, embeddable,
    padded, regex_image, wire_form,
};
use crate::wire::{
    DecodeError, MAX_PADDING, body, check_header, decoder_reads, header_error,
    lemma_header_starts_with_letter, lemma_leading_zeros_bounds, lemma_leading_zeros_is,
    padding_of, skip_padding,
};

verus! {

/// Why a search did not finish.
#[derive(Debug, Clone, Copy, PartialEq, Eq, Structural)]
pub enum SearchError {
    /// The automaton gave up: it met a byte that it was built to stop at, or
    /// it has no start state for the kind of search asked for.
    GaveUp,
    /// The automata contradict the haystack or each other.
    Inconsistent,
}

/// What is left to do once the forward automaton has run.
#[derive(Debug, Clone, Copy, PartialEq, Eq)]
pub enum Step {
    /// The search is over, with this result.
    Done(Result<Option<(usize, usize)>, SearchError>),
    /// A match ends here; the reverse automaton has to find its start.
    ScanBack(usize),
}

/// The span of a match in a haystack: it starts at `start` and ends before
/// `end`.
#[derive(Debug, Clone, Copy, PartialEq, Eq)]
pub struct MatchSpan {
    start: usize,
    end: usize,
}

impl View for MatchSpan {
    type V = (usize, usize);

    closed spec fn view(&self) -> (usize, usize) {
        (self.start, self.end)
    }
}

impl MatchSpan {
    #[verifier::type_invariant]
    spec fn ordered(self) -> bool {
        self.start <= self.end
    }

    /// A span, unless it would end before it starts.
    pub fn new(start: usize, end: usize) -> (r: Option<MatchSpan>)
        ensures
            r.is_some() == (start <= end),
            r matches Some(span) ==> span@ == (start, end),
    {
        if start <= end {
            Some(MatchSpan { start, end })
        } else {
            None
        }
    }

    /// Where the match starts.
    pub fn start(&self) -> (r: usize)
        ensures
            r == self@.0,
            r <= self@.1,
    {
        proof {
            use_type_invariant(self);
        }
        self.start
    }

    /// Where the match ends.
    pub fn end(&self) -> (r: usize)
        ensures
            r == self@.1,
            r >= self@.0,
    {
        proof {
            use_type_invariant(self);
        }
        self.end
    }

    /// The number of bytes matched.
    pub fn len(&self) -> (r: usize)
        ensures
            r == self@.1 - self@.0,
    {
        proof {
            use_type_invariant(self);
        }
        self.end - self.start
    }

    /// Whether the match is empty.
    pub fn is_empty(&self) -> (r: bool)
        ensures
            r == (self@.0 == self@.1),
    {
        self.start == self.end
    }
}

/// What follows from the outcome of the forward search: `None` where the
/// automaton gave up, else the end of the leftmost match, if any.
///
/// No end means no match. An end beyond the haystack is an error. A match of
/// an anchored search starts where the haystack does, and so does one that
/// ends there. Any other match needs the reverse search.
pub open spec fn after_forward_spec(scan: Option<Option<usize>>, len: nat, anchored: bool)
    -> Step {
    match scan {
        None => Step::Done(Err(SearchError::GaveUp)),
        Some(None) => Step::Done(Ok(None)),
        Some(Some(end)) => if end > len {
            Step::Done(Err(SearchError::Inconsistent))
        } else if anchored || end == 0 {
            Step::Done(Ok(Some((0usize, end))))
        } else {
            Step::ScanBack(end)
        },
    }
}

/// What follows from the outcome of the reverse search from `end`: `None`
/// where the automaton gave up, else the start of the match, if any.
///
/// A start behind `end`, or none at all, is an error: the forward search
/// found a match that ends at `end`.
pub open spec fn after_reverse_spec(scan: Option<Option<usize>>, end: usize) -> Result<
    Option<(usize, usize)>,
    SearchError,
> {
    match scan {
        None => Err(SearchError::GaveUp),
        Some(None) => Err(SearchError::Inconsistent),
        Some(Some(start)) => if start <= end {
            Ok(Some((start, end)))
        } else {
            Err(SearchError::Inconsistent)
        },
    }
}

/// Decides what follows from the outcome of the forward search.
pub fn after_forward(scan: Option<Option<usize>>, haystack_len: usize, anchored: bool) -> (r:
    Step)
    ensures
        r == after_forward_spec(scan, haystack_len as nat, anchored),
{
    match scan {
        None => Step::Done(Err(SearchError::GaveUp)),
        Some(None) => Step::Done(Ok(None)),
        Some(Some(end)) => {
            if end > haystack_len {
                Step::Done(Err(SearchError::Inconsistent))
            } else if anchored || end == 0 {
                Step::Done(Ok(Some((0, end))))
            } else {
                Step::ScanBack(end)
            }
        },
    }
}

/// Decides what follows from the outcome of the reverse search from `end`.
pub fn after_reverse(scan: Option<Option<usize>>, end: usize) -> (r: Result<
    Option<(usize, usize)>,
    SearchError,
>)
    ensures
        r == after_reverse_spec(scan, end),
{
    match scan {
        None => Err(SearchError::GaveUp),
        Some(None) => Err(SearchError::Inconsistent),
        Some(Some(start)) => {
            if start <= end {
                Ok(Some((start, end)))
            } else {
                Err(SearchError::Inconsistent)
            }
        },
    }
}

/// The result of a search with a forward and a reverse automaton, each given
/// by its encoding and the bytes it was decoded from.
pub open spec fn search_spec(
    forward: Automaton,
    reverse: Automaton,
    haystack: Seq<u8>,
    anchored: bool,
) -> Result<Option<(usize, usize)>, SearchError> {
    match after_forward_spec(
        forward.scan_forward_spec(haystack, anchored),
        haystack.len(),
        anchored,
    ) {
        Step::Done(result) => result,
        Step::ScanBack(end) => after_reverse_spec(reverse.scan_reverse_spec(haystack, end), end),
    }
}

/// Whether a search with the forward automaton alone finds the end of a
/// match in the haystack.
pub open spec fn match_spec(forward: Automaton, haystack: Seq<u8>) -> bool {
    forward.scan_forward_spec(haystack, false) matches Some(Some(end)) && end <= haystack.len()
}

/// The end of the leftmost match that a forward search finds: an error where
/// the automaton gives up or reports an end beyond the haystack.
pub open spec fn forward_end_spec(scan: Option<Option<usize>>, len: nat) -> Result<
    Option<usize>,
    SearchError,
> {
    match scan {
        None => Err(SearchError::GaveUp),
        Some(None) => Ok(None),
        Some(Some(end)) => if end <= len {
            Ok(Some(end))
        } else {
            Err(SearchError::Inconsistent)
        },
    }
}

/// The result of a search as a span.
pub open spec fn span_view(result: Result<Option<MatchSpan>, SearchError>) -> Result<
    Option<(usize, usize)>,
    SearchError,
> {
    match result {
        Ok(Some(span)) => Ok(Some(span@)),
        Ok(None) => Ok(None),
        Err(error) => Err(error),
    }
}

/// Whether `automaton` is one that `bytes` decodes to, with `consumed` bytes
/// read: the header is in order, the engine's decoder takes what stands
/// behind the padding, `consumed` counts the padding and what the decoder
/// reads, and the automaton is of the encoding asked for and borrows the
/// bytes read behind the padding. What lies behind the bytes read is not
/// looked at: the decoder reads as many bytes of every buffer that starts
/// with them.
pub open spec fn decodes_to(bytes: Seq<u8>, sparse: bool, automaton: Automaton, consumed: usize)
    -> bool {
    &&& header_error(body(bytes, sparse), sparse, endianness()) is None
    &&& padding_of(bytes, sparse) <= consumed <= bytes.len()
    &&& automaton.is_sparse() == sparse
    &&& automaton.source() == bytes.subrange(padding_of(bytes, sparse) as int, consumed as int)
    &&& decoder_reads(body(bytes, sparse), sparse, endianness()) matches Some(read)
        && padding_of(bytes, sparse) + read == consumed
    &&& forall|other: Seq<u8>| #[trigger]
        agree(body(bytes, sparse), other, (consumed - padding_of(bytes, sparse)) as usize)
            ==> decoder_reads(other, sparse, endianness()) == Some(
            (consumed - padding_of(bytes, sparse)) as usize,
        )
}

/// Whether the bytes allow decoding: the header behind the padding is in
/// order, and the engine's decoder takes what stands there. A dense
/// automaton must lie on a four-byte boundary besides.
pub open spec fn decodable(bytes: Seq<u8>, sparse: bool) -> bool {
    &&& header_error(body(bytes, sparse), sparse, endianness()) is None
    &&& decoder_reads(body(bytes, sparse), sparse, endianness()) is Some
}

/// Whether `automaton` is one that `bytes` decodes to.
pub open spec fn decodes(bytes: Seq<u8>, sparse: bool, automaton: Automaton) -> bool {
    exists|consumed: usize| decodes_to(bytes, sparse, automaton, consumed)
}

/// Whether `error` is one that decoding `bytes` fails with: what is wrong
/// with the header, or, under a header in order, the engine's rejection. The
/// rejection of a sparse automaton is determined by the bytes.
pub open spec fn fails_with(bytes: Seq<u8>, sparse: bool, error: DecodeError) -> bool {
    match header_error(body(bytes, sparse), sparse, endianness()) {
        Some(found) => error == found,
        None => error matches DecodeError::Rejected(text) && (sparse ==> (sparse_decoded(
            bytes,
            endianness(),
        ) matches Err(reason) && reason == text@)),
    }
}

/// A match of an anchored search starts where the haystack starts.
pub proof fn lemma_anchored_match_starts_at_zero(
    forward: Automaton,
    reverse: Automaton,
    haystack: Seq<u8>,
)
    ensures
        search_spec(forward, reverse, haystack, true) matches Ok(Some(span)) ==> span.0 == 0,
{
}

/// A match lies in the haystack, and it does not end before it starts.
pub proof fn lemma_match_lies_in_haystack(
    forward: Automaton,
    reverse: Automaton,
    haystack: Seq<u8>,
    anchored: bool,
)
    ensures
        search_spec(forward, reverse, haystack, anchored) matches Ok(Some(span)) ==> span.0
            <= span.1 <= haystack.len(),
{
}

/// In an empty haystack a search ends in an error, in no match or in the
/// empty match at the start, and the reverse automaton has no part in it.
pub proof fn lemma_empty_haystack(
    forward: Automaton,
    reverse: Automaton,
    other_reverse: Automaton,
    haystack: Seq<u8>,
    anchored: bool,
)
    requires
        haystack.len() == 0,
    ensures
        search_spec(forward, reverse, haystack, anchored) matches Ok(Some(span)) ==> span == (
            0usize,
            0usize,
        ),
        search_spec(forward, reverse, haystack, anchored) == search_spec(
            forward,
            other_reverse,
            haystack,
            anchored,
        ),
{
}

/// Where the forward automaton finds no end of a match, there is no match,
/// whatever the reverse automaton is.
pub proof fn lemma_no_end_no_match(
    forward: Automaton,
    reverse: Automaton,
    haystack: Seq<u8>,
    anchored: bool,
)
    requires
        forward.scan_forward_spec(haystack, anchored) matches Some(None),
    ensures
        search_spec(forward, reverse, haystack, anchored) matches Ok(None),
{
}

/// Where a search finds a match, the forward automaton alone says that there
/// is one.
pub proof fn lemma_found_implies_match(forward: Automaton, reverse: Automaton, haystack: Seq<u8>)
    ensures
        search_spec(forward, reverse, haystack, false) matches Ok(Some(_)) ==> match_spec(
            forward,
            haystack,
        ),
{
}

/// Two pairs of automata find the same wherever the engine's searches with
/// them come out the same: whether an automaton is dense or sparse, and
/// whether it was minimized, bears on the result of a search through those
/// outcomes alone.
pub proof fn lemma_search_follows_scans(
    forward: Automaton,
    reverse: Automaton,
    other_forward: Automaton,
    other_reverse: Automaton,
    haystack: Seq<u8>,
    anchored: bool,
)
    requires
        forward.scan_forward_spec(haystack, anchored) == other_forward.scan_forward_spec(
            haystack,
            anchored,
        ),
        forall|end: usize|
            reverse.scan_reverse_spec(haystack, end) == other_reverse.scan_reverse_spec(
                haystack,
                end,
            ),
    ensures
        search_spec(forward, reverse, haystack, anchored) == search_spec(
            other_forward,
            other_reverse,
            haystack,
            anchored,
        ),
{
}

/// Automata of one encoding that were decoded from the same bytes search
/// alike: a search depends on nothing of an automaton but those.
pub proof fn lemma_same_source_same_search(
    forward: Automaton,
    reverse: Automaton,
    other_forward: Automaton,
    other_reverse: Automaton,
    haystack: Seq<u8>,
    anchored: bool,
)
    requires
        forward.is_sparse() == other_forward.is_sparse(),
        forward.source() == other_forward.source(),
        reverse.is_sparse() == other_reverse.is_sparse(),
        reverse.source() == other_reverse.source(),
    ensures
        search_spec(forward, reverse, haystack, anchored) == search_spec(
            other_forward,
            other_reverse,
            haystack,
            anchored,
        ),
        match_spec(forward, haystack) == match_spec(other_forward, haystack),
{
}

/// Decoding looks behind the padding that the serializer wrote: the padding
/// of a buffer that holds a header in order behind it is what the decoder
/// skips.
pub proof fn lemma_padding_is_skipped(buffer: Seq<u8>, pad: usize, sparse: bool)
    requires
        padded(buffer, pad, sparse),
        header_error(buffer.skip(pad as int), sparse, endianness()) is None,
    ensures
        padding_of(buffer, sparse) == pad,
        body(buffer, sparse) == buffer.skip(pad as int),
{
    lemma_header_starts_with_letter(buffer.skip(pad as int), sparse, endianness());
    assert(buffer.skip(pad as int)[0] == buffer[pad as int]);
    lemma_leading_zeros_is(buffer, MAX_PADDING as nat, pad as nat);
}

/// What is serialized decodes: decoding a buffer that holds, behind its
/// padding, one automaton and nothing else does not fail in the sparse
/// encoding, and fails in the dense encoding only with the engine's
/// rejection, which then is about where the buffer lies.
pub proof fn lemma_serialized_bytes_decode(
    buffer: Seq<u8>,
    pad: usize,
    sparse: bool,
    error: DecodeError,
)
    requires
        padded(buffer, pad, sparse),
        embeddable(buffer.skip(pad as int), sparse, endianness()),
        fails_with(buffer, sparse, error),
    ensures
        !sparse,
        error is Rejected,
{
    lemma_padding_is_skipped(buffer, pad, sparse);
    assert(sparse ==> buffer.skip(0) == buffer);
}

/// What is decoded from a serialized automaton is that automaton: where a
/// buffer holds, behind its padding, the bytes that a built automaton stands
/// for and nothing else, decoding reads the whole buffer, and the automaton
/// decoded stands for the same bytes in the same encoding.
pub proof fn lemma_decoded_is_built(
    buffer: Seq<u8>,
    pad: usize,
    sparse: bool,
    built: Automaton,
    decoded: Automaton,
    consumed: usize,
)
    requires
        padded(buffer, pad, sparse),
        embeddable(buffer.skip(pad as int), sparse, endianness()),
        built.is_sparse() == sparse,
        built.source() == buffer.skip(pad as int),
        decodes_to(buffer, sparse, decoded, consumed),
    ensures
        consumed == buffer.len(),
        decoded.is_sparse() == built.is_sparse(),
        decoded.source() == built.source(),
{
    lemma_padding_is_skipped(buffer, pad, sparse);
    assert(buffer.subrange(pad as int, buffer.len() as int) == buffer.skip(pad as int));
}

/// A serialized automaton that was cut off does not decode: no automaton
/// comes of a buffer that holds less than all the bytes of one automaton.
pub proof fn lemma_truncation_is_rejected(whole: Seq<u8>, kept: int, sparse: bool)
    requires
        embeddable(whole, sparse, endianness()),
        0 <= kept < whole.len(),
    ensures
        forall|automaton: Automaton, consumed: usize|
            !decodes_to(whole.take(kept), sparse, automaton, consumed),
{
    let cut = whole.take(kept);
    assert forall|automaton: Automaton, consumed: usize|
        !decodes_to(cut, sparse, automaton, consumed) by {
        if decodes_to(cut, sparse, automaton, consumed) {
            lemma_header_starts_with_letter(whole, sparse, endianness());
            lemma_leading_zeros_bounds(cut, MAX_PADDING as nat);
            assert(body(cut, sparse).len() >= 40);
            assert(cut[0] == whole[0]);
            assert(padding_of(cut, sparse) == 0);
            assert(cut.skip(0) == cut);
            assert(body(cut, sparse) == cut);
            let read = (consumed - padding_of(cut, sparse)) as usize;
            assert(read == consumed);
            assert(cut.take(read as int) == whole.take(read as int));
            assert(agree(body(cut, sparse), whole, read));
            assert(decoder_reads(whole, sparse, endianness()) == Some(read));
        }
    }
}

/// Serializing and decoding loses nothing: a pair of automata decoded from
/// the serialized forms of a built pair finds, in every haystack, what the
/// built pair finds, and says alike whether there is a match.
pub proof fn lemma_round_trip(
    forward: (Seq<u8>, usize),
    reverse: (Seq<u8>, usize),
    sparse: bool,
    built: Matcher,
    decoded: Matcher,
    haystack: Seq<u8>,
    anchored: bool,
)
    requires
        padded(forward.0, forward.1, sparse),
        padded(reverse.0, reverse.1, sparse),
        embeddable(forward.0.skip(forward.1 as int), sparse, endianness()),
        embeddable(reverse.0.skip(reverse.1 as int), sparse, endianness()),
        built.forward.is_sparse() == sparse,
        built.reverse.is_sparse() == sparse,
        built.forward.source() == forward.0.skip(forward.1 as int),
        built.reverse.source() == reverse.0.skip(reverse.1 as int),
        decodes(forward.0, sparse, decoded.forward),
        decodes(reverse.0, sparse, decoded.reverse),
    ensures
        search_spec(decoded.forward, decoded.reverse, haystack, anchored) == search_spec(
            built.forward,
            built.reverse,
            haystack,
            anchored,
        ),
        match_spec(decoded.forward, haystack) == match_spec(built.forward, haystack),
{
    let forward_read = choose|consumed: usize|
        decodes_to(forward.0, sparse, decoded.forward, consumed);
    let reverse_read = choose|consumed: usize|
        decodes_to(reverse.0, sparse, decoded.reverse, consumed);
    lemma_decoded_is_built(
        forward.0,
        forward.1,
        sparse,
        built.forward,
        decoded.forward,
        forward_read,
    );
    lemma_decoded_is_built(
        reverse.0,
        reverse.1,
        sparse,
        built.reverse,
        decoded.reverse,
        reverse_read,
    );
}

/// An automaton of either encoding, decoded in place or built.
enum Inner<'a> {
    Dense(regex_automata::dfa::dense::DFA<&'a [u32]>),
    Sparse(regex_automata::dfa::sparse::DFA<&'a [u8]>),
    BuiltDense(regex_automata::dfa::dense::DFA<Vec<u32>>),
    BuiltSparse(regex_automata::dfa::sparse::DFA<Vec<u8>>),
}

/// An automaton: one that borrows the buffer it was decoded from, or one
/// that owns the tables it was built with.
pub struct Automaton<'a> {
    inner: Inner<'a>,
}

/// An automaton built from a pattern, or the error of the build, as plain
/// values.
pub open spec fn built_view(r: Result<Automaton, CompileError>) -> Result<
    Seq<u8>,
    CompileErrorView,
> {
    match r {
        Ok(automaton) => Ok(automaton.source()),
        Err(error) => Err(error@),
    }
}

/// The serialized form of a dense automaton in the encoding asked for, or
/// the error of this crate for a failed conversion.
pub open spec fn encoded(dense: Seq<u8>, sparse: bool) -> Result<Seq<u8>, CompileErrorView> {
    match wire_form(dense, sparse, endianness()) {
        Ok(bytes) => Ok(bytes),
        Err(failure) => Err(as_compile_error(failure)),
    }
}

/// A pair of automata built from a pattern, or the error of the build, as
/// plain values.
pub open spec fn built_pair_view(r: Result<Matcher, CompileError>) -> Result<
    (Seq<u8>, Seq<u8>),
    CompileErrorView,
> {
    match r {
        Ok(matcher) => Ok((matcher.forward.source(), matcher.reverse.source())),
        Err(error) => Err(error@),
    }
}

impl<'a> Automaton<'a> {
    /// Whether the automaton is in the sparse encoding.
    pub closed spec fn is_sparse(&self) -> bool {
        self.inner is Sparse || self.inner is BuiltSparse
    }

    /// The bytes that stand for the automaton: those that it was decoded
    /// from, padding left out, or the serialized form of what was built, in
    /// the byte order of this machine.
    pub closed spec fn source(&self) -> Seq<u8> {
        match self.inner {
            Inner::Dense(dfa) => dense_source(dfa),
            Inner::Sparse(dfa) => sparse_source(dfa),
            Inner::BuiltDense(dfa) => dense_wire(dfa, endianness()),
            Inner::BuiltSparse(dfa) => sparse_wire(dfa, endianness()),
        }
    }

    /// Builds the automaton that finds where the matches of a pattern end.
    ///
    /// It succeeds exactly where compiling the pattern to bytes does, and the
    /// automaton stands for those bytes: it finds what an automaton decoded
    /// from them finds.
    pub fn build(pattern: &str, sparse: bool, minimize: bool) -> (r: Result<
        Automaton<'a>,
        CompileError,
    >)
        ensures
            built_view(r) == dfa_image(pattern@, sparse, minimize, endianness()),
            r matches Ok(automaton) ==> automaton.is_sparse() == sparse,
    {
        let dfa = match build_dense(pattern, minimize) {
            Ok(dfa) => dfa,
            Err(error) => {
                return Err(compile_err(&error));
            },
        };
        Automaton::own(dfa, sparse)
    }

    /// Takes a dense automaton over in the encoding asked for.
    fn own(dfa: regex_automata::dfa::dense::DFA<Vec<u32>>, sparse: bool) -> (r: Result<
        Automaton<'a>,
        CompileError,
    >)
        ensures
            built_view(r) == encoded(dense_wire(dfa, endianness()), sparse),
            r matches Ok(automaton) ==> automaton.is_sparse() == sparse,
    {
        if sparse {
            Automaton::adopt(&dfa, sparse)
        } else {
            Ok(Automaton { inner: Inner::BuiltDense(dfa) })
        }
    }

    /// Makes an automaton in the encoding asked for of a dense automaton
    /// that stays where it is.
    fn adopt(dfa: &regex_automata::dfa::dense::DFA<Vec<u32>>, sparse: bool) -> (r: Result<
        Automaton<'a>,
        CompileError,
    >)
        ensures
            built_view(r) == encoded(dense_wire(*dfa, endianness()), sparse),
            r matches Ok(automaton) ==> automaton.is_sparse() == sparse,
    {
        if sparse {
            match dense_to_sparse(dfa) {
                Ok(converted) => Ok(Automaton { inner: Inner::BuiltSparse(converted) }),
                Err(error) => Err(compile_err(&error)),
            }
        } else {
            Ok(Automaton { inner: Inner::BuiltDense(dense_to_owned(dfa)) })
        }
    }

    /// The outcome of the engine's forward search with this automaton on a
    /// machine of this byte order.
    pub open spec fn scan_forward_spec(&self, haystack: Seq<u8>, anchored: bool) -> Option<
        Option<usize>,
    > {
        forward_scan(self.is_sparse(), endianness(), self.source(), haystack, anchored)
    }

    /// The outcome of the engine's reverse search with this automaton on a
    /// machine of this byte order: anchored at `end`, and back to the start
    /// of the haystack.
    pub open spec fn scan_reverse_spec(&self, haystack: Seq<u8>, end: usize) -> Option<
        Option<usize>,
    > {
        reverse_scan(self.is_sparse(), endianness(), self.source(), haystack, 0, end, true)
    }

    /// Decodes the automaton at the front of a buffer, and says how many
    /// bytes of the buffer belong to it.
    ///
    /// Up to seven zero bytes in front of a dense automaton are skipped. The
    /// header is inspected first, and what is wrong with it is the error.
    /// Under a header in order the engine decides. It accepts a sparse
    /// automaton by its bytes alone; a dense one must also start at an
    /// address that is a multiple of four.
    pub fn from_bytes(bytes: &'a [u8], sparse: bool) -> (r: Result<
        (Automaton<'a>, usize),
        DecodeError,
    >)
        ensures
            match r {
                Ok(decoded) => decodes_to(bytes@, sparse, decoded.0, decoded.1),
                Err(error) => fails_with(bytes@, sparse, error),
            },
            r is Ok ==> decodable(bytes@, sparse),
            sparse && decodable(bytes@, sparse) ==> r is Ok,
    {
        let (rest, pad) = skip_padding(bytes, sparse);
        assert(rest@.len() + pad == bytes@.len() == bytes.len());
        assert(sparse ==> rest@ == bytes@) by {
            assert(bytes@.skip(0) == bytes@);
        }
        match check_header(rest, sparse) {
            Ok(()) => {},
            Err(error) => {
                return Err(error);
            },
        }
        proof {
            lemma_header_starts_with_letter(rest@, sparse, endianness());
        }
        if sparse {
            match sparse_from_bytes(rest) {
                Ok((dfa, read)) => {
                    assert(bytes@.take(read as int) == bytes@.subrange(0, read as int));
                    Ok((Automaton { inner: Inner::Sparse(dfa) }, read))
                },
                Err(error) => Err(DecodeError::Rejected(describe_decode_error(&error))),
            }
        } else {
            match dense_from_bytes(rest) {
                Ok((dfa, read)) => {
                    assert(rest@.take(read as int) == bytes@.subrange(
                        pad as int,
                        pad + read,
                    ));
                    Ok((Automaton { inner: Inner::Dense(dfa) }, pad + read))
                },
                Err(error) => Err(DecodeError::Rejected(describe_decode_error(&error))),
            }
        }
    }

    /// Whether the automaton is in the sparse encoding.
    pub fn encoding_is_sparse(&self) -> (r: bool)
        ensures
            r == self.is_sparse(),
    {
        match &self.inner {
            Inner::Dense(_) => false,
            Inner::Sparse(_) => true,
            Inner::BuiltDense(_) => false,
            Inner::BuiltSparse(_) => true,
        }
    }

    /// Searches the haystack for the end of the leftmost match, from its
    /// start; an anchored search accepts only a match that starts there.
    pub fn try_search_fwd(&self, haystack: &[u8], anchored: bool) -> (r: Result<
        Option<usize>,
        SearchError,
    >)
        ensures
            r == forward_end_spec(
                self.scan_forward_spec(haystack@, anchored),
                haystack@.len(),
            ),
    {
        match self.scan_forward(haystack, anchored) {
            None => Err(SearchError::GaveUp),
            Some(None) => Ok(None),
            Some(Some(end)) => {
                if end <= haystack.len() {
                    Ok(Some(end))
                } else {
                    Err(SearchError::Inconsistent)
                }
            },
        }
    }

    /// Runs the engine's forward search over the whole haystack.
    fn scan_forward(&self, haystack: &[u8], anchored: bool) -> (r: Option<Option<usize>>)
        ensures
            r == self.scan_forward_spec(haystack@, anchored),
    {
        let found = match &self.inner {
            Inner::Dense(dfa) => dense_search_fwd(dfa, haystack, anchored),
            Inner::Sparse(dfa) => sparse_search_fwd(dfa, haystack, anchored),
            Inner::BuiltDense(dfa) => built_dense_search_fwd(dfa, haystack, anchored),
            Inner::BuiltSparse(dfa) => built_sparse_search_fwd(dfa, haystack, anchored),
        };
        match found {
            Ok(end) => Some(end),
            Err(_) => None,
        }
    }

    /// Runs the engine's anchored reverse search from `end` back to the start
    /// of the haystack.
    fn scan_reverse(&self, haystack: &[u8], end: usize) -> (r: Option<Option<usize>>)
        requires
            end <= haystack@.len(),
        ensures
            r == self.scan_reverse_spec(haystack@, end),
    {
        let found = match &self.inner {
            Inner::Dense(dfa) => dense_search_rev(dfa, haystack, 0, end, true),
            Inner::Sparse(dfa) => sparse_search_rev(dfa, haystack, 0, end, true),
            Inner::BuiltDense(dfa) => built_dense_search_rev(dfa, haystack, 0, end, true),
            Inner::BuiltSparse(dfa) => built_sparse_search_rev(dfa, haystack, 0, end, true),
        };
        match found {
            Ok(start) => Some(start),
            Err(_) => None,
        }
    }
}

/// A forward and a reverse automaton.
pub struct Matcher<'a> {
    /// Finds where the leftmost match ends.
    pub forward: Automaton<'a>,
    /// Finds, backwards from its end, where a match starts.
    pub reverse: Automaton<'a>,
}

impl<'a> Matcher<'a> {
    /// Pairs a forward with a reverse automaton. Nothing is asked of the two:
    /// a search with a pair that does not belong together ends in an error.
    pub fn build_from_dfas(forward: Automaton<'a>, reverse: Automaton<'a>) -> (r: Matcher<'a>)
        ensures
            r.forward == forward,
            r.reverse == reverse,
    {
        Matcher { forward, reverse }
    }

    /// Builds the forward and the reverse automaton of a pattern and pairs
    /// them.
    ///
    /// It succeeds exactly where compiling the pattern to bytes does, and the
    /// automata stand for those bytes: the pair finds what a pair decoded
    /// from them finds.
    pub fn build(pattern: &str, sparse: bool, minimize: bool) -> (r: Result<
        Matcher<'a>,
        CompileError,
    >)
        ensures
            built_pair_view(r) == regex_image(pattern@, sparse, minimize, endianness()),
            r matches Ok(matcher) ==> matcher.forward.is_sparse() == sparse
                && matcher.reverse.is_sparse() == sparse,
    {
        let regex = match build_regex(pattern, minimize) {
            Ok(regex) => regex,
            Err(error) => {
                return Err(compile_err(&error));
            },
        };
        let forward = match Automaton::adopt(regex_forward(&regex), sparse) {
            Ok(automaton) => automaton,
            Err(error) => {
                return Err(error);
            },
        };
        let reverse = match Automaton::adopt(regex_reverse(&regex), sparse) {
            Ok(automaton) => automaton,
            Err(error) => {
                return Err(error);
            },
        };
        Ok(Matcher::build_from_dfas(forward, reverse))
    }

    /// Decodes a forward and a reverse automaton of one encoding, each from
    /// the front of its buffer, and pairs them. The forward automaton is
    /// decoded first, and its error comes first.
    pub fn from_bytes(forward: &'a [u8], reverse: &'a [u8], sparse: bool) -> (r: Result<
        Matcher<'a>,
        DecodeError,
    >)
        ensures
            match r {
                Ok(matcher) => decodes(forward@, sparse, matcher.forward) && decodes(
                    reverse@,
                    sparse,
                    matcher.reverse,
                ),
                Err(error) => fails_with(forward@, sparse, error) || (decodable(
                    forward@,
                    sparse,
                ) && fails_with(reverse@, sparse, error)),
            },
            r is Ok ==> decodable(forward@, sparse) && decodable(reverse@, sparse),
            sparse && decodable(forward@, sparse) && decodable(reverse@, sparse) ==> r is Ok,
    {
        assert(forward@.skip(0) == forward@);
        assert(reverse@.skip(0) == reverse@);
        let (forward_automaton, forward_read) = match Automaton::from_bytes(forward, sparse) {
            Ok(decoded) => decoded,
            Err(error) => {
                return Err(error);
            },
        };
        let (reverse_automaton, reverse_read) = match Automaton::from_bytes(reverse, sparse) {
            Ok(decoded) => decoded,
            Err(error) => {
                return Err(error);
            },
        };
        assert(decodes_to(forward@, sparse, forward_automaton, forward_read));
        assert(decodes_to(reverse@, sparse, reverse_automaton, reverse_read));
        Ok(Matcher::build_from_dfas(forward_automaton, reverse_automaton))
    }

    /// Searches the haystack for the leftmost match, from its start; an
    /// anchored search accepts only a match that starts there.
    ///
    /// The forward automaton runs first. Where it finds no match, the
    /// reverse automaton is not run; nor where the match is known to start
    /// with the haystack.
    pub fn try_search(&self, haystack: &[u8], anchored: bool) -> (r: Result<
        Option<MatchSpan>,
        SearchError,
    >)
        ensures
            span_view(r) == search_spec(self.forward, self.reverse, haystack@, anchored),
            r matches Ok(Some(span)) ==> span@.0 <= span@.1 <= haystack@.len(),
            r matches Ok(Some(span)) ==> anchored ==> span@.0 == 0,
    {
        let scan = self.forward.scan_forward(haystack, anchored);
        let result = match after_forward(scan, haystack.len(), anchored) {
            Step::Done(result) => result,
            Step::ScanBack(end) => {
                let back = self.reverse.scan_reverse(haystack, end);
                after_reverse(back, end)
            },
        };
        match result {
            Ok(Some((start, end))) => Ok(Some(MatchSpan { start, end })),
            Ok(None) => Ok(None),
            Err(error) => Err(error),
        }
    }

    /// The leftmost match in the haystack, if the search finishes and finds
    /// one.
    pub fn find(&self, haystack: &[u8]) -> (r: Option<MatchSpan>)
        ensures
            match search_spec(self.forward, self.reverse, haystack@, false) {
                Ok(Some(span)) => r matches Some(found) && found@ == span,
                _ => r is None,
            },
            r matches Some(span) ==> span@.0 <= span@.1 <= haystack@.len(),
    {
        match self.try_search(haystack, false) {
            Ok(found) => found,
            Err(_) => None,
        }
    }

    /// Whether the haystack holds a match: whether the forward automaton
    /// finishes and finds the end of one. The reverse automaton is not run.
    pub fn is_match(&self, haystack: &[u8]) -> (r: bool)
        ensures
            r == match_spec(self.forward, haystack@),
    {
        match self.forward.scan_forward(haystack, false) {
            Some(Some(end)) => end <= haystack.len(),
            _ => false,
        }
    }
}

} // verus!
