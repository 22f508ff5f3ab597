use dfa_embed::compile::{compile_dfa, compile_regex, serialize_dfa, serialize_regex};
use dfa_embed::search::{
    after_forward, after_reverse, Automaton, MatchSpan, Matcher, SearchError, Step,
};
use dfa_embed::wire::DecodeError;
use regex_automata::dfa::dense;
use regex_automata::dfa::regex::Regex;
use regex_automata::dfa::sparse;

const PATTERN: &str = "(?iu)a(b|c)*d";

/// A copy of a dense automaton behind as much padding as puts it on a
/// four-byte boundary.
fn aligned(bytes: &[u8]) -> Vec<u8> {
    for pad in 0..4 {
        let mut buffer = vec![0u8; pad];
        buffer.extend_from_slice(bytes);
        if Automaton::from_bytes(&buffer, false).is_ok() {
            return buffer;
        }
    }
    panic!("no padding aligns the automaton");
}

/// The buffers of a compiled regex, ready to decode.
fn compiled(pattern: &str, sparse: bool, minimize: bool) -> (Vec<u8>, Vec<u8>) {
    let (forward, reverse) = compile_regex(pattern, sparse, minimize).unwrap();
    if sparse {
        (forward, reverse)
    } else {
        (aligned(&forward), aligned(&reverse))
    }
}

fn span(found: Option<MatchSpan>) -> Option<(usize, usize)> {
    found.map(|m| (m.start(), m.end()))
}

/// What the engine's own regex finds, for comparison.
fn engine_find(pattern: &str, haystack: &str) -> Option<(usize, usize)> {
    let regex = Regex::builder()
        .dense(dense::Config::new().minimize(true))
        .build(pattern)
        .unwrap();
    regex.find(haystack).map(|m| (m.start(), m.end()))
}

const HAYSTACKS: [&str; 10] =
    ["", "d", "ad", "abbbcd", "AbCbCd", "abce", "xxabcdxx", "abcdabcd", "ab\u{fe}d", "ADAD"];

#[test]
fn match_span_needs_ordered_ends() {
    let span = MatchSpan::new(2, 5).unwrap();
    assert_eq!((span.start(), span.end(), span.len(), span.is_empty()), (2, 5, 3, false));
    let empty = MatchSpan::new(4, 4).unwrap();
    assert_eq!((empty.start(), empty.end(), empty.len(), empty.is_empty()), (4, 4, 0, true));
    assert_eq!(MatchSpan::new(5, 2), None);
}

#[test]
fn after_forward_ends_a_search_without_a_match() {
    assert_eq!(after_forward(Some(None), 10, false), Step::Done(Ok(None)));
    assert_eq!(after_forward(Some(None), 0, true), Step::Done(Ok(None)));
}

#[test]
fn after_forward_reports_an_automaton_that_gave_up() {
    assert_eq!(after_forward(None, 10, false), Step::Done(Err(SearchError::GaveUp)));
    assert_eq!(after_forward(None, 10, true), Step::Done(Err(SearchError::GaveUp)));
}

#[test]
fn after_forward_asks_for_the_reverse_search() {
    assert_eq!(after_forward(Some(Some(6)), 10, false), Step::ScanBack(6));
    assert_eq!(after_forward(Some(Some(10)), 10, false), Step::ScanBack(10));
    assert_eq!(after_forward(Some(Some(1)), 10, false), Step::ScanBack(1));
}

#[test]
fn after_forward_knows_where_an_anchored_match_starts() {
    assert_eq!(after_forward(Some(Some(6)), 10, true), Step::Done(Ok(Some((0, 6)))));
    assert_eq!(after_forward(Some(Some(0)), 10, true), Step::Done(Ok(Some((0, 0)))));
}

#[test]
fn after_forward_knows_where_a_match_at_the_front_starts() {
    assert_eq!(after_forward(Some(Some(0)), 10, false), Step::Done(Ok(Some((0, 0)))));
    assert_eq!(after_forward(Some(Some(0)), 0, false), Step::Done(Ok(Some((0, 0)))));
}

#[test]
fn after_forward_rejects_an_end_beyond_the_haystack() {
    assert_eq!(
        after_forward(Some(Some(11)), 10, false),
        Step::Done(Err(SearchError::Inconsistent))
    );
    assert_eq!(
        after_forward(Some(Some(1)), 0, true),
        Step::Done(Err(SearchError::Inconsistent))
    );
}

#[test]
fn after_reverse_completes_the_span() {
    assert_eq!(after_reverse(Some(Some(2)), 6), Ok(Some((2, 6))));
    assert_eq!(after_reverse(Some(Some(6)), 6), Ok(Some((6, 6))));
    assert_eq!(after_reverse(Some(Some(0)), 6), Ok(Some((0, 6))));
}

#[test]
fn after_reverse_rejects_what_contradicts_the_forward_search() {
    assert_eq!(after_reverse(Some(None), 6), Err(SearchError::Inconsistent));
    assert_eq!(after_reverse(Some(Some(7)), 6), Err(SearchError::Inconsistent));
    assert_eq!(after_reverse(None, 6), Err(SearchError::GaveUp));
}

#[test]
fn a_case_insensitive_pattern_matches_both_cases() {
    for sparse in [false, true] {
        let (forward, reverse) = compiled(PATTERN, sparse, true);
        let matcher = Matcher::from_bytes(&forward, &reverse, sparse).unwrap();
        assert!(matcher.is_match(b"abbbcd"));
        assert!(matcher.is_match(b"AbCbCd"));
        assert!(!matcher.is_match(b"abce"));
    }
}

#[test]
fn find_reports_the_span_of_the_leftmost_match() {
    for sparse in [false, true] {
        let (forward, reverse) = compiled("foo[0-9]+", sparse, true);
        let matcher = Matcher::from_bytes(&forward, &reverse, sparse).unwrap();
        assert_eq!(span(matcher.find(b"xxfoo123yy foo9")), Some((2, 8)));
        assert_eq!(span(matcher.find(b"foo1")), Some((0, 4)));
        assert_eq!(span(matcher.find(b"foo")), None);
        assert_eq!(span(matcher.find(b"")), None);
    }
}

#[test]
fn find_prefers_the_first_alternative() {
    for sparse in [false, true] {
        let (forward, reverse) = compiled("abc|a", sparse, true);
        let matcher = Matcher::from_bytes(&forward, &reverse, sparse).unwrap();
        assert_eq!(span(matcher.find(b"abc")), Some((0, 3)));
        let (forward, reverse) = compiled("a|abc", sparse, true);
        let matcher = Matcher::from_bytes(&forward, &reverse, sparse).unwrap();
        assert_eq!(span(matcher.find(b"abc")), Some((0, 1)));
    }
}

#[test]
fn find_agrees_with_the_engine() {
    for sparse in [false, true] {
        let (forward, reverse) = compiled(PATTERN, sparse, true);
        let matcher = Matcher::from_bytes(&forward, &reverse, sparse).unwrap();
        for haystack in HAYSTACKS {
            assert_eq!(span(matcher.find(haystack.as_bytes())), engine_find(PATTERN, haystack));
            assert_eq!(
                matcher.is_match(haystack.as_bytes()),
                engine_find(PATTERN, haystack).is_some()
            );
        }
    }
}

#[test]
fn find_agrees_with_the_engine_on_an_anchored_pattern() {
    for sparse in [false, true] {
        let (forward, reverse) = compiled("^ab+", sparse, true);
        let matcher = Matcher::from_bytes(&forward, &reverse, sparse).unwrap();
        for haystack in ["abbb", "xabbb", "", "ab", "a"] {
            assert_eq!(span(matcher.find(haystack.as_bytes())), engine_find("^ab+", haystack));
        }
        assert_eq!(span(matcher.find(b"abbbc")), Some((0, 4)));
    }
}

#[test]
fn dense_and_sparse_find_the_same() {
    for pattern in [PATTERN, "foo[0-9]+", "", "(a|b)*abb", r"\d{2,4}-\d+", "^$"] {
        let (forward, reverse) = compiled(pattern, false, true);
        let dense = Matcher::from_bytes(&forward, &reverse, false).unwrap();
        let (forward, reverse) = compiled(pattern, true, true);
        let sparse = Matcher::from_bytes(&forward, &reverse, true).unwrap();
        for haystack in HAYSTACKS.iter().chain(["foo12", "12-345", "aabb abb"].iter()) {
            let haystack = haystack.as_bytes();
            assert_eq!(dense.find(haystack), sparse.find(haystack));
            assert_eq!(dense.is_match(haystack), sparse.is_match(haystack));
            assert_eq!(dense.try_search(haystack, true), sparse.try_search(haystack, true));
        }
    }
}

#[test]
fn minimizing_changes_no_result() {
    for sparse in [false, true] {
        for pattern in [PATTERN, "foo[0-9]+", "", "(a|b)*abb", r"\d{2,4}-\d+"] {
            let (forward, reverse) = compiled(pattern, sparse, true);
            let small = Matcher::from_bytes(&forward, &reverse, sparse).unwrap();
            let (forward, reverse) = compiled(pattern, sparse, false);
            let plain = Matcher::from_bytes(&forward, &reverse, sparse).unwrap();
            for haystack in HAYSTACKS.iter().chain(["foo12", "12-345", "aabb abb"].iter()) {
                let haystack = haystack.as_bytes();
                assert_eq!(small.find(haystack), plain.find(haystack));
                assert_eq!(small.try_search(haystack, true), plain.try_search(haystack, true));
            }
        }
    }
}

#[test]
fn an_anchored_search_matches_at_the_start_only() {
    for sparse in [false, true] {
        let (forward, reverse) = compiled("foo[0-9]+", sparse, true);
        let matcher = Matcher::from_bytes(&forward, &reverse, sparse).unwrap();
        assert_eq!(matcher.try_search(b"xxfoo123", true), Ok(None));
        assert_eq!(matcher.try_search(b"foo123xx", true), Ok(MatchSpan::new(0, 6)));
        assert_eq!(matcher.try_search(b"xxfoo123", false), Ok(MatchSpan::new(2, 8)));
        assert_eq!(matcher.try_search(b"foo123xx", false), Ok(MatchSpan::new(0, 6)));
    }
}

#[test]
fn the_empty_pattern_matches_the_empty_string() {
    for sparse in [false, true] {
        let (forward, reverse) = compiled("", sparse, true);
        let matcher = Matcher::from_bytes(&forward, &reverse, sparse).unwrap();
        assert!(matcher.is_match(b""));
        assert_eq!(span(matcher.find(b"")), Some((0, 0)));
        assert_eq!(span(matcher.find(b"abc")), Some((0, 0)));
        assert_eq!(matcher.try_search(b"", true), Ok(MatchSpan::new(0, 0)));
    }
}

#[test]
fn a_pattern_that_needs_input_finds_nothing_in_an_empty_haystack() {
    for sparse in [false, true] {
        let (forward, reverse) = compiled("a+", sparse, true);
        let matcher = Matcher::from_bytes(&forward, &reverse, sparse).unwrap();
        assert!(!matcher.is_match(b""));
        assert_eq!(matcher.find(b""), None);
        assert_eq!(matcher.try_search(b"", true), Ok(None));
        assert_eq!(span(matcher.find(b"a")), Some((0, 1)));
        assert_eq!(span(matcher.find(b"baaa")), Some((1, 4)));
    }
}

#[test]
fn an_automaton_finds_where_a_match_ends() {
    for sparse in [false, true] {
        let mut bytes = compile_dfa("foo[0-9]+", sparse, true).unwrap();
        if !sparse {
            bytes = aligned(&bytes);
        }
        let (automaton, consumed) = Automaton::from_bytes(&bytes, sparse).unwrap();
        assert_eq!(consumed, bytes.len());
        assert_eq!(automaton.encoding_is_sparse(), sparse);
        assert_eq!(automaton.try_search_fwd(b"foo12345", false), Ok(Some(8)));
        assert_eq!(automaton.try_search_fwd(b"xfoo12345", false), Ok(Some(9)));
        assert_eq!(automaton.try_search_fwd(b"xfoo12345", true), Ok(None));
        assert_eq!(automaton.try_search_fwd(b"foo", false), Ok(None));
    }
}

#[test]
fn a_built_pair_finds_what_the_engine_finds() {
    for sparse in [false, true] {
        for minimize in [false, true] {
            for pattern in [PATTERN, "", "foo[0-9]+", "^ab+", "abc|a"] {
                let matcher = Matcher::build(pattern, sparse, minimize).unwrap();
                assert_eq!(matcher.forward.encoding_is_sparse(), sparse);
                assert_eq!(matcher.reverse.encoding_is_sparse(), sparse);
                for haystack in HAYSTACKS.iter().chain(["foo12", "xabbb", "abc"].iter()) {
                    assert_eq!(
                        span(matcher.find(haystack.as_bytes())),
                        engine_find(pattern, haystack)
                    );
                    assert_eq!(
                        matcher.is_match(haystack.as_bytes()),
                        engine_find(pattern, haystack).is_some()
                    );
                }
            }
        }
    }
}

#[test]
fn serializing_and_decoding_loses_nothing() {
    for sparse in [false, true] {
        for pattern in [PATTERN, "", "foo[0-9]+", "(a|b)*abb", r"\d{2,4}-\d+"] {
            let built = Matcher::build(pattern, sparse, true).unwrap();
            let ((forward, _), (reverse, _)) = serialize_regex(pattern, sparse, true).unwrap();
            let decoded = Matcher::from_bytes(&forward, &reverse, sparse).unwrap();
            for haystack in HAYSTACKS.iter().chain(["foo12", "12-345", "aabb abb"].iter()) {
                let haystack = haystack.as_bytes();
                assert_eq!(decoded.find(haystack), built.find(haystack));
                assert_eq!(decoded.is_match(haystack), built.is_match(haystack));
                assert_eq!(decoded.try_search(haystack, true), built.try_search(haystack, true));
                assert_eq!(
                    decoded.forward.try_search_fwd(haystack, false),
                    built.forward.try_search_fwd(haystack, false)
                );
            }
        }
    }
}

#[test]
fn a_built_automaton_finds_where_a_match_ends() {
    for sparse in [false, true] {
        let automaton = Automaton::build("foo[0-9]+", sparse, true).unwrap();
        assert_eq!(automaton.encoding_is_sparse(), sparse);
        assert_eq!(automaton.try_search_fwd(b"foo12345", false), Ok(Some(8)));
        assert_eq!(automaton.try_search_fwd(b"xfoo12345", false), Ok(Some(9)));
        assert_eq!(automaton.try_search_fwd(b"xfoo12345", true), Ok(None));
        assert_eq!(automaton.try_search_fwd(b"foo", false), Ok(None));
    }
}

#[test]
fn building_fails_where_compiling_fails() {
    for sparse in [false, true] {
        for pattern in ["(abc", "[z-a]", r"\bword\b"] {
            let wanted = compile_dfa(pattern, sparse, true).unwrap_err();
            assert_eq!(Automaton::build(pattern, sparse, true).err(), Some(wanted));
            let wanted = compile_regex(pattern, sparse, true).unwrap_err();
            assert_eq!(Matcher::build(pattern, sparse, true).err(), Some(wanted));
        }
    }
}

#[test]
fn what_is_serialized_decodes_where_it_lies() {
    for sparse in [false, true] {
        for pattern in [PATTERN, "", "foo[0-9]+"] {
            let (buffer, pad) = serialize_dfa(pattern, sparse, true).unwrap();
            let (automaton, consumed) = Automaton::from_bytes(&buffer, sparse).unwrap();
            assert_eq!(consumed, buffer.len());
            assert!(pad <= consumed);
            assert_eq!(automaton.encoding_is_sparse(), sparse);
            let ((forward, _), (reverse, _)) = serialize_regex(pattern, sparse, true).unwrap();
            let matcher = Matcher::from_bytes(&forward, &reverse, sparse).unwrap();
            for haystack in HAYSTACKS {
                assert_eq!(
                    span(matcher.find(haystack.as_bytes())),
                    engine_find(pattern, haystack)
                );
            }
        }
    }
}

#[test]
fn a_rejection_carries_the_text_of_the_engine() {
    let bytes = compile_dfa(PATTERN, true, true).unwrap();
    for cut in [1, 8, bytes.len() / 2] {
        let short = &bytes[..bytes.len() - cut];
        let engine = sparse::DFA::from_bytes(short).err().unwrap();
        assert_eq!(
            Automaton::from_bytes(short, true).err(),
            Some(DecodeError::Rejected(format!("{}", engine)))
        );
    }
}

#[test]
fn decoding_reads_one_automaton_and_leaves_the_rest() {
    let first = compile_dfa("foo[0-9]+", true, true).unwrap();
    let second = compile_dfa("bar", true, true).unwrap();
    let mut both = first.clone();
    both.extend_from_slice(&second);
    let (automaton, consumed) = Automaton::from_bytes(&both, true).unwrap();
    assert_eq!(consumed, first.len());
    assert_eq!(automaton.try_search_fwd(b"foo1", false), Ok(Some(4)));
    let (automaton, consumed) = Automaton::from_bytes(&both[consumed..], true).unwrap();
    assert_eq!(consumed, second.len());
    assert_eq!(automaton.try_search_fwd(b"a bar", false), Ok(Some(5)));
}

#[test]
fn decoding_counts_the_padding_of_a_dense_automaton() {
    let bytes = aligned(&compile_dfa("foo[0-9]+", false, true).unwrap());
    let mut padded = vec![0u8; 4];
    padded.extend_from_slice(&bytes);
    let padded = aligned(&padded);
    let front = padded.iter().take_while(|b| **b == 0).count();
    let (_, consumed) = Automaton::from_bytes(&padded, false).unwrap();
    assert_eq!(consumed, padded.len());
    assert!(front >= 4 && front <= 7);
}

#[test]
fn a_dense_automaton_off_its_boundary_is_rejected() {
    let bytes = compile_dfa("foo[0-9]+", false, true).unwrap();
    let mut accepted = 0;
    for front in 0..4 {
        let mut buffer = vec![0xFFu8; front];
        buffer.extend_from_slice(&bytes);
        match Automaton::from_bytes(&buffer[front..], false) {
            Ok((_, consumed)) => {
                accepted += 1;
                assert_eq!(consumed, bytes.len());
            }
            Err(DecodeError::Rejected(message)) => {
                assert!(message.contains("alignment mismatch"))
            }
            Err(other) => panic!("unexpected {:?}", other),
        }
    }
    assert_eq!(accepted, 1);
}

#[test]
fn decoding_skips_no_padding_of_a_sparse_automaton() {
    let mut bytes = vec![0u8];
    bytes.extend_from_slice(&compile_dfa("foo", true, true).unwrap());
    assert_eq!(Automaton::from_bytes(&bytes, true).err(), Some(DecodeError::LabelMismatch));
}

#[test]
fn decoding_rejects_too_much_padding() {
    let mut bytes = vec![0u8; 8];
    bytes.extend_from_slice(&compile_dfa("foo", false, true).unwrap());
    assert_eq!(Automaton::from_bytes(&bytes, false).err(), Some(DecodeError::LabelMismatch));
}

#[test]
fn decoding_rejects_a_truncated_header() {
    for sparse in [false, true] {
        let bytes = compile_dfa(PATTERN, sparse, true).unwrap();
        for len in [0, 1, 31, 39] {
            assert_eq!(
                Automaton::from_bytes(&bytes[..len], sparse).err(),
                Some(DecodeError::Truncated)
            );
        }
    }
}

#[test]
fn decoding_rejects_a_truncated_body() {
    for sparse in [false, true] {
        let mut bytes = compile_dfa(PATTERN, sparse, true).unwrap();
        if !sparse {
            bytes = aligned(&bytes);
        }
        for cut in [1, 8, bytes.len() / 2] {
            match Automaton::from_bytes(&bytes[..bytes.len() - cut], sparse) {
                Err(DecodeError::Rejected(message)) => assert!(!message.is_empty()),
                Err(other) => panic!("unexpected {:?}", other),
                Ok(_) => panic!("a truncated automaton was accepted"),
            }
        }
    }
}

#[test]
fn decoding_rejects_the_other_encoding() {
    let dense = compile_dfa(PATTERN, false, true).unwrap();
    let sparse = compile_dfa(PATTERN, true, true).unwrap();
    assert_eq!(Automaton::from_bytes(&dense, true).err(), Some(DecodeError::LabelMismatch));
    assert_eq!(Automaton::from_bytes(&sparse, false).err(), Some(DecodeError::LabelMismatch));
    assert_eq!(Automaton::from_bytes(b"no automaton at all, only forty bytes...", true).err(),
        Some(DecodeError::LabelMismatch));
}

#[test]
fn decoding_rejects_the_other_byte_order() {
    let built = dense::Builder::new().build(PATTERN).unwrap();
    let (native, _) = built.to_bytes_native_endian();
    let (little, little_pad) = built.to_bytes_little_endian();
    let (big, big_pad) = built.to_bytes_big_endian();
    let foreign = if native == little { &big[big_pad..] } else { &little[little_pad..] };
    assert_eq!(Automaton::from_bytes(foreign, false).err(), Some(DecodeError::EndianMismatch));
    let built = built.to_sparse().unwrap();
    let native = built.to_bytes_native_endian();
    let little = built.to_bytes_little_endian();
    let big = built.to_bytes_big_endian();
    let foreign = if native == little { big } else { little };
    assert_eq!(Automaton::from_bytes(&foreign, true).err(), Some(DecodeError::EndianMismatch));
}

#[test]
fn decoding_rejects_a_damaged_label() {
    for sparse in [false, true] {
        let bytes = compile_dfa(PATTERN, sparse, true).unwrap();
        for at in [0, 1, 10, 28, 29] {
            for mask in [0x01u8, 0x20, 0xFF] {
                let mut damaged = bytes.clone();
                damaged[at] ^= mask;
                assert_eq!(
                    Automaton::from_bytes(&damaged, sparse).err(),
                    Some(DecodeError::LabelMismatch)
                );
            }
        }
    }
}

#[test]
fn decoding_rejects_a_label_that_passes_for_padding() {
    let bytes = compile_dfa(PATTERN, false, true).unwrap();
    for zeros in 1..9 {
        let mut damaged = bytes.clone();
        for byte in damaged.iter_mut().take(zeros) {
            *byte = 0;
        }
        assert_eq!(
            Automaton::from_bytes(&damaged, false).err(),
            Some(DecodeError::LabelMismatch)
        );
    }
    let mut shifted = vec![0u8];
    shifted.extend_from_slice(&bytes[..29]);
    shifted.extend_from_slice(&bytes[30..]);
    assert_eq!(shifted.len(), bytes.len());
    assert_eq!(Automaton::from_bytes(&shifted, false).err(), Some(DecodeError::EndianMismatch));
}

#[test]
fn decoding_rejects_another_version() {
    for sparse in [false, true] {
        let mut bytes = compile_dfa(PATTERN, sparse, true).unwrap();
        bytes[36..40].copy_from_slice(&3u32.to_ne_bytes());
        assert_eq!(
            Automaton::from_bytes(&bytes, sparse).err(),
            Some(DecodeError::VersionMismatch)
        );
    }
}

#[test]
fn a_matcher_fails_on_its_forward_automaton_first() {
    let (forward, reverse) = compiled(PATTERN, true, true);
    assert_eq!(
        Matcher::from_bytes(&forward[..10], &reverse[..50], true).err(),
        Some(DecodeError::Truncated)
    );
    let mut damaged = reverse.clone();
    damaged[36] ^= 0xFF;
    assert_eq!(
        Matcher::from_bytes(&forward, &damaged, true).err(),
        Some(DecodeError::VersionMismatch)
    );
    let mut relabelled = forward.clone();
    relabelled[0] = b'R';
    assert_eq!(
        Matcher::from_bytes(&relabelled, &damaged, true).err(),
        Some(DecodeError::LabelMismatch)
    );
}

#[test]
fn a_mismatched_pair_never_yields_a_span_outside_the_haystack() {
    let (forward, _) = compiled("foo[0-9]+", true, true);
    let (_, reverse) = compiled("bar", true, true);
    let matcher = Matcher::from_bytes(&forward, &reverse, true).unwrap();
    assert!(matcher.is_match(b"xxfoo123"));
    assert_eq!(matcher.try_search(b"xxfoo123", false), Err(SearchError::Inconsistent));
    assert_eq!(matcher.find(b"xxfoo123"), None);
    assert_eq!(matcher.try_search(b"foo123", true), Ok(MatchSpan::new(0, 6)));
    assert_eq!(matcher.try_search(b"nothing", false), Ok(None));
}

#[test]
fn build_from_dfas_pairs_two_automata() {
    let (forward, reverse) = compiled("foo[0-9]+", true, true);
    let (forward, _) = Automaton::from_bytes(&forward, true).unwrap();
    let (reverse, _) = Automaton::from_bytes(&reverse, true).unwrap();
    let matcher = Matcher::build_from_dfas(forward, reverse);
    assert_eq!(span(matcher.find(b"a foo42 b")), Some((2, 7)));
    assert_eq!(matcher.forward.try_search_fwd(b"a foo42 b", false), Ok(Some(7)));
}

#[test]
fn a_reverse_automaton_does_not_search_unanchored() {
    let (_, reverse) = compiled("foo[0-9]+", true, true);
    let (reverse, _) = Automaton::from_bytes(&reverse, true).unwrap();
    assert_eq!(reverse.try_search_fwd(b"321oof", false), Err(SearchError::GaveUp));
}
