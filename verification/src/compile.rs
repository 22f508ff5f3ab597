//! From a pattern to the bytes that a program embeds.
//!
//! A pattern is compiled to a dense automaton, converted to the sparse
//! encoding where that is asked for, and serialized in the byte order of the
//! machine that compiles. The serializer puts padding in front of a dense
//! automaton so that the automaton itself lies on a four-byte boundary of
//! the buffer it returns. [`serialize_dfa`] and [`serialize_regex`] hand the
//! buffers out with their padding, ready to decode where they lie.
//! [`compile_dfa`] and [`compile_regex`] cut it off: whoever embeds the
//! bytes elsewhere aligns them there.

use vstd::prelude::*;
use vstd::endian::{endianness, Endian};
use crate::engine::{
    build_dense, build_regex, built_dense, built_regex, dense_to_bytes, dense_to_sparse,
    dense_wire, describe_build_error, failure_view, regex_forward, regex_reverse,
    size_limit_exceeded, sparse_form, sparse_to_bytes,
};
use crate::input::{Input, InputView, ParseError, Token, parse_macro_input, whole_spec};
use crate::wire::{decoder_reads, header_error};

verus! {

/// Why a pattern did not compile.
#[derive(Debug, Clone, Copy, PartialEq, Eq, Structural)]
pub enum CompileErrorKind {
    /// The pattern is malformed, or uses what automata cannot express.
    Pattern,
    /// The automaton outgrew a limit of the builder.
    LimitExceeded,
}

/// A failed compilation.
#[derive(Debug, Clone, PartialEq, Eq)]
pub struct CompileError {
    pub kind: CompileErrorKind,
    /// The builder's account of the failure.
    pub message: String,
}

/// A failed compilation as plain values.
pub struct CompileErrorView {
    pub kind: CompileErrorKind,
    pub message: Seq<char>,
}

impl View for CompileError {
    type V = CompileErrorView;

    open spec fn view(&self) -> CompileErrorView {
        CompileErrorView { kind: self.kind, message: self.message@ }
    }
}

/// A failed embedding request.
#[derive(Debug, Clone, PartialEq, Eq)]
pub enum MacroError {
    /// The argument list is not of the grammar.
    Syntax(ParseError),
    /// The pattern did not compile.
    Compile(CompileError),
}

/// A failed embedding request as plain values.
pub enum MacroErrorView {
    Syntax(ParseError),
    Compile(CompileErrorView),
}

impl View for MacroError {
    type V = MacroErrorView;

    open spec fn view(&self) -> MacroErrorView {
        match self {
            MacroError::Syntax(error) => MacroErrorView::Syntax(*error),
            MacroError::Compile(error) => MacroErrorView::Compile(error@),
        }
    }
}

/// What the generated code for one automaton is made from.
#[derive(Debug, Clone, PartialEq, Eq)]
pub struct DfaExpansion {
    /// The crate that re-exports the engine to the generated code.
    pub krate: String,
    /// The unit that the embedded bytes are aligned to.
    pub ty: &'static str,
    /// The module of the engine that holds the automaton type.
    pub imports: &'static str,
    /// The serialized automaton, without padding.
    pub bytes: Vec<u8>,
}

/// What the generated code for one automaton is made from, as plain values.
pub struct DfaExpansionView {
    pub krate: Seq<char>,
    pub ty: Seq<char>,
    pub imports: Seq<char>,
    pub bytes: Seq<u8>,
}

impl View for DfaExpansion {
    type V = DfaExpansionView;

    open spec fn view(&self) -> DfaExpansionView {
        DfaExpansionView {
            krate: self.krate@,
            ty: self.ty@,
            imports: self.imports@,
            bytes: self.bytes@,
        }
    }
}

/// What the generated code for a regex is made from.
#[derive(Debug, Clone, PartialEq, Eq)]
pub struct RegexExpansion {
    /// The crate that re-exports the engine to the generated code.
    pub krate: String,
    /// The unit that the embedded bytes are aligned to.
    pub ty: &'static str,
    /// The module of the engine that holds the automaton type.
    pub imports: &'static str,
    /// The serialized forward automaton, without padding.
    pub forward_bytes: Vec<u8>,
    /// The serialized reverse automaton, without padding.
    pub reverse_bytes: Vec<u8>,
}

/// What the generated code for a regex is made from, as plain values.
pub struct RegexExpansionView {
    pub krate: Seq<char>,
    pub ty: Seq<char>,
    pub imports: Seq<char>,
    pub forward_bytes: Seq<u8>,
    pub reverse_bytes: Seq<u8>,
}

impl View for RegexExpansion {
    type V = RegexExpansionView;

    open spec fn view(&self) -> RegexExpansionView {
        RegexExpansionView {
            krate: self.krate@,
            ty: self.ty@,
            imports: self.imports@,
            forward_bytes: self.forward_bytes@,
            reverse_bytes: self.reverse_bytes@,
        }
    }
}

/// The unit of alignment of an encoding.
pub open spec fn unit_of(sparse: bool) -> Seq<char> {
    if sparse {
        "u8"@
    } else {
        "u32"@
    }
}

/// The module that holds the automaton type of an encoding.
pub open spec fn module_of(sparse: bool) -> Seq<char> {
    if sparse {
        "sparse"@
    } else {
        "dense"@
    }
}

/// The error of this crate for what the builder says of a failure: whether
/// it is about a limit, and its text.
pub open spec fn as_compile_error(failure: (bool, Seq<char>)) -> CompileErrorView {
    CompileErrorView {
        kind: if failure.0 {
            CompileErrorKind::LimitExceeded
        } else {
            CompileErrorKind::Pattern
        },
        message: failure.1,
    }
}

/// The serialized form of a dense automaton in the encoding asked for:
/// itself, or its sparse conversion, which can fail.
pub open spec fn wire_form(dense: Seq<u8>, sparse: bool, order: Endian) -> Result<
    Seq<u8>,
    (bool, Seq<char>),
> {
    if sparse {
        sparse_form(dense, order)
    } else {
        Ok(dense)
    }
}

/// The bytes that a pattern compiles to as a single automaton, or the error
/// that stops it: that of the builder, else that of the sparse conversion.
pub open spec fn dfa_image(pattern: Seq<char>, sparse: bool, minimize: bool, order: Endian)
    -> Result<Seq<u8>, CompileErrorView> {
    match built_dense(pattern, minimize, order) {
        Ok(dense) => match wire_form(dense, sparse, order) {
            Ok(bytes) => Ok(bytes),
            Err(failure) => Err(as_compile_error(failure)),
        },
        Err(failure) => Err(as_compile_error(failure)),
    }
}

/// The bytes that a pattern compiles to as a forward and a reverse
/// automaton, or the error that stops it: that of the builder, else that of
/// the sparse conversion of the forward automaton, else that of the reverse
/// automaton.
pub open spec fn regex_image(pattern: Seq<char>, sparse: bool, minimize: bool, order: Endian)
    -> Result<(Seq<u8>, Seq<u8>), CompileErrorView> {
    match built_regex(pattern, minimize, order) {
        Ok(dense) => match wire_form(dense.0, sparse, order) {
            Ok(forward) => match wire_form(dense.1, sparse, order) {
                Ok(reverse) => Ok((forward, reverse)),
                Err(failure) => Err(as_compile_error(failure)),
            },
            Err(failure) => Err(as_compile_error(failure)),
        },
        Err(failure) => Err(as_compile_error(failure)),
    }
}

/// What the generated code for one automaton is made from, for a parsed
/// argument list: the pattern compiled with minimization, and the names
/// that go with the encoding.
pub open spec fn dfa_expansion(input: InputView, order: Endian) -> Result<
    DfaExpansionView,
    CompileErrorView,
> {
    match dfa_image(input.input, input.sparse, true, order) {
        Ok(bytes) => Ok(
            DfaExpansionView {
                krate: input.krate,
                ty: unit_of(input.sparse),
                imports: module_of(input.sparse),
                bytes,
            },
        ),
        Err(error) => Err(error),
    }
}

/// What the generated code for a regex is made from, for a parsed argument
/// list: the pattern compiled with minimization, and the names that go with
/// the encoding.
pub open spec fn regex_expansion(input: InputView, order: Endian) -> Result<
    RegexExpansionView,
    CompileErrorView,
> {
    match regex_image(input.input, input.sparse, true, order) {
        Ok(bytes) => Ok(
            RegexExpansionView {
                krate: input.krate,
                ty: unit_of(input.sparse),
                imports: module_of(input.sparse),
                forward_bytes: bytes.0,
                reverse_bytes: bytes.1,
            },
        ),
        Err(error) => Err(error),
    }
}

/// The answer to a request for one embedded automaton: the error of the
/// grammar, which allows nothing after the pattern, else that of the
/// compilation, else the expansion.
pub open spec fn dfa_answer(tokens: Seq<Token>, order: Endian) -> Result<
    DfaExpansionView,
    MacroErrorView,
> {
    match whole_spec(tokens) {
        Ok(input) => match dfa_expansion(input, order) {
            Ok(expansion) => Ok(expansion),
            Err(error) => Err(MacroErrorView::Compile(error)),
        },
        Err(error) => Err(MacroErrorView::Syntax(error)),
    }
}

/// The answer to a request for an embedded regex: the error of the grammar,
/// which allows nothing after the pattern, else that of the compilation,
/// else the expansion.
pub open spec fn regex_answer(tokens: Seq<Token>, order: Endian) -> Result<
    RegexExpansionView,
    MacroErrorView,
> {
    match whole_spec(tokens) {
        Ok(input) => match regex_expansion(input, order) {
            Ok(expansion) => Ok(expansion),
            Err(error) => Err(MacroErrorView::Compile(error)),
        },
        Err(error) => Err(MacroErrorView::Syntax(error)),
    }
}

/// A buffer with the padding at its front cut off, or an error, as plain
/// values.
pub open spec fn unpadded(r: Result<(Vec<u8>, usize), CompileError>) -> Result<
    Seq<u8>,
    CompileErrorView,
> {
    match r {
        Ok(out) => Ok(out.0@.skip(out.1 as int)),
        Err(error) => Err(error@),
    }
}

/// Two buffers with the padding at their fronts cut off, or an error, as
/// plain values.
pub open spec fn unpadded_pair(
    r: Result<((Vec<u8>, usize), (Vec<u8>, usize)), CompileError>,
) -> Result<(Seq<u8>, Seq<u8>), CompileErrorView> {
    match r {
        Ok(out) => Ok((out.0.0@.skip(out.0.1 as int), out.1.0@.skip(out.1.1 as int))),
        Err(error) => Err(error@),
    }
}

/// A result as plain values.
pub open spec fn result_view<T: View, E: View>(r: Result<T, E>) -> Result<T::V, E::V> {
    match r {
        Ok(value) => Ok(value@),
        Err(error) => Err(error@),
    }
}

/// Whether a buffer holds one automaton of an encoding and nothing else, for
/// a machine of the given byte order: the header is in order, and the
/// decoder accepts the bytes and reads all of them. The decoder of the dense
/// encoding does so only where the buffer lies on a four-byte boundary.
pub open spec fn embeddable(bytes: Seq<u8>, sparse: bool, order: Endian) -> bool {
    &&& header_error(bytes, sparse, order) is None
    &&& decoder_reads(bytes, sparse, order) matches Some(read) && read == bytes.len()
}

/// Whether a buffer starts with `pad` bytes of padding as the serializer of
/// an encoding lays them out: at most three bytes, all zero, and none in the
/// sparse encoding.
pub open spec fn padded(buffer: Seq<u8>, pad: usize, sparse: bool) -> bool {
    &&& pad <= 3
    &&& sparse ==> pad == 0
    &&& pad <= buffer.len()
    &&& forall|i: int| 0 <= i < pad ==> buffer[i] == 0
}

/// Chooses the unit of alignment and the module of the automaton type for an
/// encoding: `("u8", "sparse")` or `("u32", "dense")`.
pub fn ty_import(sparse: bool) -> (r: (&'static str, &'static str))
    ensures
        r.0@ == unit_of(sparse),
        r.1@ == module_of(sparse),
{
    if sparse {
        ("u8", "sparse")
    } else {
        ("u32", "dense")
    }
}

/// Cuts the padding off the front of a serialized automaton.
pub fn strip_padding(bytes: Vec<u8>, pad: usize) -> (r: Vec<u8>)
    requires
        pad <= bytes@.len(),
    ensures
        r@ == bytes@.skip(pad as int),
{
    let mut bytes = bytes;
    bytes.split_off(pad)
}

/// The error for a failed build, from what the builder says of it.
pub fn build_failure(limit_exceeded: bool, message: String) -> (r: CompileError)
    ensures
        r@ == as_compile_error((limit_exceeded, message@)),
{
    let kind = if limit_exceeded {
        CompileErrorKind::LimitExceeded
    } else {
        CompileErrorKind::Pattern
    };
    CompileError { kind, message }
}

/// Turns an error of the builder into one of this crate.
pub(crate) fn compile_err(error: &regex_automata::dfa::dense::BuildError) -> (r: CompileError)
    ensures
        r@ == as_compile_error(failure_view(*error)),
{
    build_failure(size_limit_exceeded(error), describe_build_error(error))
}

/// A serialized automaton, or the error of the builder, as plain values.
pub open spec fn applied(
    r: Result<(Vec<u8>, usize), regex_automata::dfa::dense::BuildError>,
) -> Result<Seq<u8>, (bool, Seq<char>)> {
    match r {
        Ok(out) => Ok(out.0@.skip(out.1 as int)),
        Err(error) => Err(failure_view(error)),
    }
}

/// Serializes a dense automaton in the encoding asked for. The result is the
/// buffer and the length of the padding at its front; a sparse automaton has
/// none. It fails where the sparse conversion does.
pub(crate) fn dfa_apply_sparse(sparse: bool, dfa: &regex_automata::dfa::dense::DFA<Vec<u32>>) -> (r:
    Result<(Vec<u8>, usize), regex_automata::dfa::dense::BuildError>)
    ensures
        applied(r) == wire_form(dense_wire(*dfa, endianness()), sparse, endianness()),
        r matches Ok(out) ==> padded(out.0@, out.1, sparse) && embeddable(
            out.0@.skip(out.1 as int),
            sparse,
            endianness(),
        ),
{
    if sparse {
        match dense_to_sparse(dfa) {
            Ok(converted) => {
                let bytes = sparse_to_bytes(&converted);
                assert(bytes@.skip(0) == bytes@);
                Ok((bytes, 0))
            },
            Err(error) => Err(error),
        }
    } else {
        Ok(dense_to_bytes(dfa))
    }
}

/// Compiles a pattern to one automaton that finds where matches end, and
/// serializes it. The result is the buffer and the length of the padding at
/// its front.
///
/// It succeeds exactly where the builder accepts the pattern and, for the
/// sparse encoding, the conversion goes through. What stands behind the
/// padding is a function of the pattern, the two options and the byte order
/// of this machine: the same request gives the same bytes. The length of
/// the padding is not: it depends on where the buffer was allocated. The
/// bytes behind the padding begin with a header in order, and the decoder
/// takes them all where they lie on a boundary.
pub fn serialize_dfa(pattern: &str, sparse: bool, minimize: bool) -> (r: Result<
    (Vec<u8>, usize),
    CompileError,
>)
    ensures
        unpadded(r) == dfa_image(pattern@, sparse, minimize, endianness()),
        r matches Ok(out) ==> padded(out.0@, out.1, sparse) && embeddable(
            out.0@.skip(out.1 as int),
            sparse,
            endianness(),
        ),
{
    let dfa = match build_dense(pattern, minimize) {
        Ok(dfa) => dfa,
        Err(error) => {
            return Err(compile_err(&error));
        },
    };
    match dfa_apply_sparse(sparse, &dfa) {
        Ok(out) => Ok(out),
        Err(error) => Err(compile_err(&error)),
    }
}

/// Compiles a pattern to a forward and a reverse automaton, and serializes
/// both. The result is, for the forward and then for the reverse automaton,
/// the buffer and the length of the padding at its front.
///
/// It succeeds exactly where the builder accepts the pattern and, for the
/// sparse encoding, both conversions go through. What stands behind the
/// padding is a function of the pattern, the two options and the byte order
/// of this machine: the same request gives the same bytes. The bytes behind
/// the padding begin with a header in order, and the decoder takes them all
/// where they lie on a boundary.
pub fn serialize_regex(pattern: &str, sparse: bool, minimize: bool) -> (r: Result<
    ((Vec<u8>, usize), (Vec<u8>, usize)),
    CompileError,
>)
    ensures
        unpadded_pair(r) == regex_image(pattern@, sparse, minimize, endianness()),
        r matches Ok(out) ==> {
            &&& padded(out.0.0@, out.0.1, sparse)
            &&& padded(out.1.0@, out.1.1, sparse)
            &&& embeddable(out.0.0@.skip(out.0.1 as int), sparse, endianness())
            &&& embeddable(out.1.0@.skip(out.1.1 as int), sparse, endianness())
        },
{
    let regex = match build_regex(pattern, minimize) {
        Ok(regex) => regex,
        Err(error) => {
            return Err(compile_err(&error));
        },
    };
    let forward = match dfa_apply_sparse(sparse, regex_forward(&regex)) {
        Ok(out) => out,
        Err(error) => {
            return Err(compile_err(&error));
        },
    };
    let reverse = match dfa_apply_sparse(sparse, regex_reverse(&regex)) {
        Ok(out) => out,
        Err(error) => {
            return Err(compile_err(&error));
        },
    };
    Ok((forward, reverse))
}

/// Compiles a pattern to one automaton that finds where matches end, and
/// serializes it without padding.
///
/// It succeeds exactly where the builder accepts the pattern and, for the
/// sparse encoding, the conversion goes through. The bytes are a function
/// of the pattern, the two options and the byte order of this machine: the
/// same request gives the same bytes. They begin with a header in order,
/// and the decoder takes them all where they lie on a boundary.
pub fn compile_dfa(pattern: &str, sparse: bool, minimize: bool) -> (r: Result<
    Vec<u8>,
    CompileError,
>)
    ensures
        result_view(r) == dfa_image(pattern@, sparse, minimize, endianness()),
        r matches Ok(bytes) ==> embeddable(bytes@, sparse, endianness()),
{
    match serialize_dfa(pattern, sparse, minimize) {
        Ok((bytes, pad)) => Ok(strip_padding(bytes, pad)),
        Err(error) => Err(error),
    }
}

/// Compiles a pattern to a forward and a reverse automaton, and serializes
/// both without padding.
///
/// It succeeds exactly where the builder accepts the pattern and, for the
/// sparse encoding, both conversions go through. The bytes are a function
/// of the pattern, the two options and the byte order of this machine: the
/// same request gives the same bytes. Both buffers begin with a header in
/// order, and the decoder takes each whole where it lies on a boundary.
pub fn compile_regex(pattern: &str, sparse: bool, minimize: bool) -> (r: Result<
    (Vec<u8>, Vec<u8>),
    CompileError,
>)
    ensures
        result_view(r) == regex_image(pattern@, sparse, minimize, endianness()),
        r matches Ok(bytes) ==> embeddable(bytes.0@, sparse, endianness()) && embeddable(
            bytes.1@,
            sparse,
            endianness(),
        ),
{
    match serialize_regex(pattern, sparse, minimize) {
        Ok(((forward_bytes, forward_pad), (reverse_bytes, reverse_pad))) => Ok(
            (
                strip_padding(forward_bytes, forward_pad),
                strip_padding(reverse_bytes, reverse_pad),
            ),
        ),
        Err(error) => Err(error),
    }
}

/// Compiles the pattern of an argument list, minimized, to one automaton in
/// the encoding that the list asks for, and names the unit and the module
/// that go with the encoding.
pub fn impl_dfa(input: Input) -> (r: Result<DfaExpansion, CompileError>)
    ensures
        result_view(r) == dfa_expansion(input@, endianness()),
        r matches Ok(expansion) ==> embeddable(expansion.bytes@, input.sparse, endianness()),
{
    let bytes = match compile_dfa(input.input.as_str(), input.sparse, true) {
        Ok(bytes) => bytes,
        Err(error) => {
            return Err(error);
        },
    };
    let (ty, imports) = ty_import(input.sparse);
    Ok(DfaExpansion { krate: input.krate, ty, imports, bytes })
}

/// Compiles the pattern of an argument list, minimized, to a forward and a
/// reverse automaton in the encoding that the list asks for, and names the
/// unit and the module that go with the encoding.
pub fn impl_regex(input: Input) -> (r: Result<RegexExpansion, CompileError>)
    ensures
        result_view(r) == regex_expansion(input@, endianness()),
        r matches Ok(expansion) ==> {
            &&& embeddable(expansion.forward_bytes@, input.sparse, endianness())
            &&& embeddable(expansion.reverse_bytes@, input.sparse, endianness())
        },
{
    let (forward_bytes, reverse_bytes) = match compile_regex(
        input.input.as_str(),
        input.sparse,
        true,
    ) {
        Ok(bytes) => bytes,
        Err(error) => {
            return Err(error);
        },
    };
    let (ty, imports) = ty_import(input.sparse);
    Ok(RegexExpansion { krate: input.krate, ty, imports, forward_bytes, reverse_bytes })
}

/// Answers a request for one embedded automaton: parses the argument list,
/// after which nothing may follow, and compiles its pattern.
pub fn dfa(tokens: &[Token]) -> (r: Result<DfaExpansion, MacroError>)
    ensures
        result_view(r) == dfa_answer(tokens@, endianness()),
{
    match parse_macro_input(tokens) {
        Ok(input) => match impl_dfa(input) {
            Ok(expansion) => Ok(expansion),
            Err(error) => Err(MacroError::Compile(error)),
        },
        Err(error) => Err(MacroError::Syntax(error)),
    }
}

/// Answers a request for an embedded regex: parses the argument list,
/// after which nothing may follow, and compiles its pattern.
pub fn regex(tokens: &[Token]) -> (r: Result<RegexExpansion, MacroError>)
    ensures
        result_view(r) == regex_answer(tokens@, endianness()),
{
    match parse_macro_input(tokens) {
        Ok(input) => match impl_regex(input) {
            Ok(expansion) => Ok(expansion),
            Err(error) => Err(MacroError::Compile(error)),
        },
        Err(error) => Err(MacroError::Syntax(error)),
    }
}

} // verus!
