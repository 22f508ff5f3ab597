use dfa_embed::input::{parse_macro_input, Expected, Input, ParseError, Token, ARGUMENTS};

fn well_formed() -> Vec<Token> {
    vec![
        Token::Ident("my_crate".to_string()),
        Token::Comma,
        Token::Bool(true),
        Token::Comma,
        Token::Str("(?iu)a(b|c)*d".to_string()),
    ]
}

const WANTED: [Expected; 5] =
    [Expected::Ident, Expected::Comma, Expected::Bool, Expected::Comma, Expected::Str];

#[test]
fn an_argument_list_has_five_tokens() {
    assert_eq!(ARGUMENTS, 5);
}

#[test]
fn parse_reads_the_three_arguments() {
    let input = Input::parse(&well_formed()).unwrap();
    assert_eq!(input.krate, "my_crate");
    assert!(input.sparse);
    assert_eq!(input.input, "(?iu)a(b|c)*d");
}

#[test]
fn parse_keeps_the_encoding_flag() {
    let mut tokens = well_formed();
    tokens[2] = Token::Bool(false);
    let input = Input::parse(&tokens).unwrap();
    assert!(!input.sparse);
}

#[test]
fn parse_keeps_an_empty_pattern() {
    let mut tokens = well_formed();
    tokens[4] = Token::Str(String::new());
    assert_eq!(Input::parse(&tokens).unwrap().input, "");
}

#[test]
fn parse_rejects_an_empty_list() {
    assert_eq!(
        Input::parse(&[]),
        Err(ParseError { position: 0, expected: Expected::Ident, at_end: true })
    );
}

#[test]
fn parse_rejects_a_list_that_ends_early() {
    let tokens = well_formed();
    for cut in 0..5 {
        let wanted = ParseError { position: cut, expected: WANTED[cut], at_end: true };
        assert_eq!(Input::parse(&tokens[..cut]), Err(wanted));
        assert_eq!(parse_macro_input(&tokens[..cut]), Err(wanted));
    }
}

#[test]
fn parse_rejects_the_first_wrong_token() {
    for position in 0..5 {
        let mut tokens = well_formed();
        tokens[position] = Token::Other;
        if position < 4 {
            tokens[4] = Token::Other;
        }
        let wanted = ParseError { position, expected: WANTED[position], at_end: false };
        assert_eq!(Input::parse(&tokens), Err(wanted));
        assert_eq!(parse_macro_input(&tokens), Err(wanted));
    }
}

#[test]
fn parse_tells_token_kinds_apart() {
    let mut tokens = well_formed();
    tokens[0] = Token::Str("my_crate".to_string());
    assert_eq!(
        Input::parse(&tokens),
        Err(ParseError { position: 0, expected: Expected::Ident, at_end: false })
    );
    let mut tokens = well_formed();
    tokens[2] = Token::Ident("yes".to_string());
    assert_eq!(
        Input::parse(&tokens),
        Err(ParseError { position: 2, expected: Expected::Bool, at_end: false })
    );
    let mut tokens = well_formed();
    tokens[4] = Token::Ident("pattern".to_string());
    assert_eq!(
        Input::parse(&tokens),
        Err(ParseError { position: 4, expected: Expected::Str, at_end: false })
    );
    let mut tokens = well_formed();
    tokens[1] = Token::Bool(true);
    assert_eq!(
        Input::parse(&tokens),
        Err(ParseError { position: 1, expected: Expected::Comma, at_end: false })
    );
}

#[test]
fn parse_leaves_what_follows_the_pattern() {
    let wanted = Input::parse(&well_formed()).unwrap();
    for extra in [Token::Comma, Token::Other, Token::Str("more".to_string())] {
        let mut tokens = well_formed();
        tokens.push(extra.clone());
        assert_eq!(Input::parse(&tokens), Ok(wanted.clone()));
        tokens.push(extra);
        tokens.push(Token::Ident("and_more".to_string()));
        assert_eq!(Input::parse(&tokens), Ok(wanted.clone()));
    }
}

#[test]
fn parse_fails_in_the_front_whatever_follows() {
    let mut tokens = well_formed();
    tokens[3] = Token::Other;
    tokens.push(Token::Comma);
    let wanted = ParseError { position: 3, expected: Expected::Comma, at_end: false };
    assert_eq!(Input::parse(&tokens), Err(wanted));
    assert_eq!(parse_macro_input(&tokens), Err(wanted));
}

#[test]
fn a_whole_list_parses_as_its_front() {
    assert_eq!(parse_macro_input(&well_formed()), Input::parse(&well_formed()));
}

#[test]
fn a_whole_list_ends_with_the_pattern() {
    for extra in [Token::Comma, Token::Other, Token::Str("more".to_string())] {
        let mut tokens = well_formed();
        tokens.push(extra);
        let wanted = ParseError { position: 5, expected: Expected::End, at_end: false };
        assert_eq!(parse_macro_input(&tokens), Err(wanted));
        tokens.push(Token::Comma);
        assert_eq!(parse_macro_input(&tokens), Err(wanted));
    }
}

#[test]
fn a_parse_error_says_what_is_wrong() {
    let wanted = [
        (Expected::Ident, "expected identifier"),
        (Expected::Comma, "expected `,`"),
        (Expected::Bool, "expected boolean literal"),
        (Expected::Str, "expected string literal"),
        (Expected::End, "unexpected token"),
    ];
    for (position, (expected, message)) in wanted.into_iter().enumerate() {
        assert_eq!(ParseError { position, expected, at_end: false }.message(), message);
    }
}

#[test]
fn a_parse_error_says_where_the_list_ends_early() {
    let wanted = [
        (Expected::Ident, "unexpected end of input, expected identifier"),
        (Expected::Comma, "expected `,`"),
        (Expected::Bool, "unexpected end of input, expected boolean literal"),
        (Expected::Comma, "expected `,`"),
        (Expected::Str, "unexpected end of input, expected string literal"),
    ];
    let tokens = well_formed();
    for (cut, (expected, message)) in wanted.into_iter().enumerate() {
        let error = Input::parse(&tokens[..cut]).unwrap_err();
        assert_eq!(error.expected, expected);
        assert_eq!(error.message(), message);
    }
}
