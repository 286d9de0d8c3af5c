use dbus_console::tokenizer::{Cursor, Span, Token, TokenStream, TokenType, Tokenizer,
                              TokenizerErrorKind};

#[test]
fn test_path() {
    let tokenizer = Tokenizer::new();
    let token_stream = tokenizer.tokenize("()");

    assert_eq!(
        TokenStream::new(vec![
            Token {
                span: Span { start: 0, end: 1 },
                content: "(",
                token_type: TokenType::StructStart
            },
            Token {
                span: Span { start: 1, end: 2 },
                content: ")",
                token_type: TokenType::StructEnd
            }
        ]),
        token_stream.unwrap()
    );
}

#[test]
fn test_complex_structure() {
    let tokenizer = Tokenizer::new();
    let token_stream = tokenizer.tokenize("(\"test\", -3.1, { \"key\": \"value\" }, [ 1, 2, 3 ])");

    assert_eq!(
        token_stream.unwrap(),
        TokenStream::new(vec![
            Token {
                span: Span { start: 0, end: 1 },
                content: "(",
                token_type: TokenType::StructStart
            },
            Token {
                span: Span { start: 1, end: 7 },
                content: "\"test\"",
                token_type: TokenType::String
            },
            Token {
                span: Span { start: 7, end: 8 },
                content: ",",
                token_type: TokenType::Seperator
            },
            Token {
                span: Span { start: 8, end: 9 },
                content: " ",
                token_type: TokenType::Whitespace
            },
            Token {
                span: Span { start: 9, end: 13 },
                content: "-3.1",
                token_type: TokenType::Number
            },
            Token {
                span: Span { start: 13, end: 14 },
                content: ",",
                token_type: TokenType::Seperator
            },
            Token {
                span: Span { start: 14, end: 15 },
                content: " ",
                token_type: TokenType::Whitespace
            },
            Token {
                span: Span { start: 15, end: 16 },
                content: "{",
                token_type: TokenType::DictStart
            },
            Token {
                span: Span { start: 16, end: 17 },
                content: " ",
                token_type: TokenType::Whitespace
            },
            Token {
                span: Span { start: 17, end: 22 },
                content: "\"key\"",
                token_type: TokenType::String
            },
            Token {
                span: Span { start: 22, end: 23 },
                content: ":",
                token_type: TokenType::DictAssignmentOperator
            },
            Token {
                span: Span { start: 23, end: 24 },
                content: " ",
                token_type: TokenType::Whitespace
            },
            Token {
                span: Span { start: 24, end: 31 },
                content: "\"value\"",
                token_type: TokenType::String
            },
            Token {
                span: Span { start: 31, end: 32 },
                content: " ",
                token_type: TokenType::Whitespace
            },
            Token {
                span: Span { start: 32, end: 33 },
                content: "}",
                token_type: TokenType::DictEnd
            },
            Token {
                span: Span { start: 33, end: 34 },
                content: ",",
                token_type: TokenType::Seperator
            },
            Token {
                span: Span { start: 34, end: 35 },
                content: " ",
                token_type: TokenType::Whitespace
            },
            Token {
                span: Span { start: 35, end: 36 },
                content: "[",
                token_type: TokenType::ArrayStart
            },
            Token {
                span: Span { start: 36, end: 37 },
                content: " ",
                token_type: TokenType::Whitespace
            },
            Token {
                span: Span { start: 37, end: 38 },
                content: "1",
                token_type: TokenType::Number
            },
            Token {
                span: Span { start: 38, end: 39 },
                content: ",",
                token_type: TokenType::Seperator
            },
            Token {
                span: Span { start: 39, end: 40 },
                content: " ",
                token_type: TokenType::Whitespace
            },
            Token {
                span: Span { start: 40, end: 41 },
                content: "2",
                token_type: TokenType::Number
            },
            Token {
                span: Span { start: 41, end: 42 },
                content: ",",
                token_type: TokenType::Seperator
            },
            Token {
                span: Span { start: 42, end: 43 },
                content: " ",
                token_type: TokenType::Whitespace
            },
            Token {
                span: Span { start: 43, end: 44 },
                content: "3",
                token_type: TokenType::Number
            },
            Token {
                span: Span { start: 44, end: 45 },
                content: " ",
                token_type: TokenType::Whitespace
            },
            Token {
                span: Span { start: 45, end: 46 },
                content: "]",
                token_type: TokenType::ArrayEnd
            },
            Token {
                span: Span { start: 46, end: 47 },
                content: ")",
                token_type: TokenType::StructEnd
            },
        ]),
    );
}

#[test]
fn spec_scenario_full_argument_list() {
    let tokenizer = Tokenizer::new();
    let stream = tokenizer
        .tokenize("(\"test\", -3.1, {\"key\": \"value\"}, [1, 2, 3])")
        .unwrap();

    let expected: Vec<(usize, usize, &str, TokenType)> = vec![
        (0, 1, "(", TokenType::StructStart),
        (1, 7, "\"test\"", TokenType::String),
        (7, 8, ",", TokenType::Seperator),
        (8, 9, " ", TokenType::Whitespace),
        (9, 13, "-3.1", TokenType::Number),
        (13, 14, ",", TokenType::Seperator),
        (14, 15, " ", TokenType::Whitespace),
        (15, 16, "{", TokenType::DictStart),
        (16, 21, "\"key\"", TokenType::String),
        (21, 22, ":", TokenType::DictAssignmentOperator),
        (22, 23, " ", TokenType::Whitespace),
        (23, 30, "\"value\"", TokenType::String),
        (30, 31, "}", TokenType::DictEnd),
        (31, 32, ",", TokenType::Seperator),
        (32, 33, " ", TokenType::Whitespace),
        (33, 34, "[", TokenType::ArrayStart),
        (34, 35, "1", TokenType::Number),
        (35, 36, ",", TokenType::Seperator),
        (36, 37, " ", TokenType::Whitespace),
        (37, 38, "2", TokenType::Number),
        (38, 39, ",", TokenType::Seperator),
        (39, 40, " ", TokenType::Whitespace),
        (40, 41, "3", TokenType::Number),
        (41, 42, "]", TokenType::ArrayEnd),
        (42, 43, ")", TokenType::StructEnd),
    ];
    assert_eq!(stream.tokens.len(), expected.len());
    for (token, (start, end, content, kind)) in stream.tokens.iter().zip(expected.iter()) {
        assert_eq!(token.span.start, *start);
        assert_eq!(token.span.end, *end);
        assert_eq!(token.content, *content);
        assert_eq!(token.token_type, *kind);
    }
}

#[test]
fn empty_input_gives_empty_stream() {
    let tokenizer = Tokenizer::new();
    let stream = tokenizer.tokenize("").unwrap();
    assert_eq!(stream.tokens.len(), 0);
}

#[test]
fn unknown_character_is_lex_error() {
    let tokenizer = Tokenizer::new();
    let err = tokenizer.tokenize("@").unwrap_err();
    assert_eq!(err.kind, TokenizerErrorKind::LexError);
    assert_eq!(err.span, Span { start: 0, end: 1 });
    assert_eq!(err.message(), "no rule matches");
}

#[test]
fn unterminated_string_reports_opening_quote() {
    let tokenizer = Tokenizer::new();
    let err = tokenizer.tokenize("\"unterminated").unwrap_err();
    assert_eq!(err.kind, TokenizerErrorKind::UnterminatedLiteral);
    assert_eq!(err.span, Span { start: 0, end: 1 });
    assert_eq!(err.message(), "unterminated literal");
}

#[test]
fn round_trip_concatenation() {
    let tokenizer = Tokenizer::new();
    let input = "( [1, -2.5], {'k': 'v'} ,\"x_y.z\" )";
    let stream = tokenizer.tokenize(input).unwrap();
    let mut rebuilt = String::new();
    for token in stream.tokens.iter() {
        rebuilt.push_str(token.content);
    }
    assert_eq!(rebuilt, input);
}

#[test]
fn tokenizing_twice_is_identical() {
    let tokenizer = Tokenizer::new();
    let input = "('abc', 42, [ -7 ])";
    let first = tokenizer.tokenize(input).unwrap();
    let second = tokenizer.tokenize(input).unwrap();
    assert_eq!(first, second);
}

#[test]
fn spans_are_contiguous_and_non_empty() {
    let tokenizer = Tokenizer::new();
    let stream = tokenizer.tokenize("{'a': [1,2]}, -0.5  ").unwrap();
    assert!(stream.tokens.len() > 0);
    assert_eq!(stream.tokens[0].span.start, 0);
    for token in stream.tokens.iter() {
        assert!(token.span.start < token.span.end);
    }
    for pair in stream.tokens.windows(2) {
        assert_eq!(pair[0].span.end, pair[1].span.start);
    }
    assert_eq!(stream.tokens.last().unwrap().span.end, 20);
}

#[test]
fn consecutive_spaces_collapse_into_one_token() {
    let tokenizer = Tokenizer::new();
    let stream = tokenizer.tokenize("1   2").unwrap();
    assert_eq!(stream.tokens.len(), 3);
    assert_eq!(stream.tokens[1].token_type, TokenType::Whitespace);
    assert_eq!(stream.tokens[1].content, "   ");
    assert_eq!(stream.tokens[1].span, Span { start: 1, end: 4 });
}

#[test]
fn whitespace_tokens_are_emitted_not_filtered() {
    let tokenizer = Tokenizer::new();
    let stream = tokenizer.tokenize(" ").unwrap();
    assert_eq!(stream.tokens.len(), 1);
    assert_eq!(stream.tokens[0].token_type, TokenType::Whitespace);
}

#[test]
fn numbers_take_the_longest_form() {
    let tokenizer = Tokenizer::new();
    let stream = tokenizer.tokenize("-12.75").unwrap();
    assert_eq!(stream.tokens.len(), 1);
    assert_eq!(stream.tokens[0].content, "-12.75");
    assert_eq!(stream.tokens[0].token_type, TokenType::Number);
}

#[test]
fn bare_minus_is_lex_error() {
    let tokenizer = Tokenizer::new();
    let err = tokenizer.tokenize("-").unwrap_err();
    assert_eq!(err.kind, TokenizerErrorKind::LexError);
    assert_eq!(err.span, Span { start: 0, end: 1 });
}

#[test]
fn trailing_dot_stops_the_number() {
    let tokenizer = Tokenizer::new();
    let err = tokenizer.tokenize("12.").unwrap_err();
    // The longest match at the start is the number `12`; the bare dot
    // that follows matches no rule.
    assert_eq!(err.kind, TokenizerErrorKind::LexError);
    assert_eq!(err.span, Span { start: 2, end: 3 });
}

#[test]
fn single_quoted_and_empty_strings() {
    let tokenizer = Tokenizer::new();
    let stream = tokenizer.tokenize("'a_b.9'").unwrap();
    assert_eq!(stream.tokens.len(), 1);
    assert_eq!(stream.tokens[0].token_type, TokenType::String);

    let empty = tokenizer.tokenize("\"\"").unwrap();
    assert_eq!(empty.tokens.len(), 1);
    assert_eq!(empty.tokens[0].token_type, TokenType::String);
    assert_eq!(empty.tokens[0].span, Span { start: 0, end: 2 });
}

#[test]
fn unclosed_string_with_stray_character_is_lex_error() {
    // the window stops being extendable before the input ends, so this
    // is a plain lexical error, not an unterminated literal
    let tokenizer = Tokenizer::new();
    let err = tokenizer.tokenize("\"ab@").unwrap_err();
    assert_eq!(err.kind, TokenizerErrorKind::LexError);
    assert_eq!(err.span, Span { start: 0, end: 1 });
}

#[test]
fn quote_of_the_other_kind_is_not_string_content() {
    let tokenizer = Tokenizer::new();
    let err = tokenizer.tokenize("'a\"b'").unwrap_err();
    assert_eq!(err.kind, TokenizerErrorKind::LexError);
    assert_eq!(err.span, Span { start: 0, end: 1 });
}

#[test]
fn offsets_count_characters() {
    // spans count characters; on ASCII input that is the same as
    // bytes, and a character outside every rule is a lexical error
    let tokenizer = Tokenizer::new();
    let err = tokenizer.tokenize("\u{e9}").unwrap_err();
    assert_eq!(err.kind, TokenizerErrorKind::LexError);
    assert_eq!(err.span, Span { start: 0, end: 1 });
}

#[test]
fn match_token_follows_rule_priority() {
    let tokenizer = Tokenizer::new();
    assert_eq!(tokenizer.match_token("("), Some(TokenType::StructStart));
    assert_eq!(tokenizer.match_token(")"), Some(TokenType::StructEnd));
    assert_eq!(tokenizer.match_token("["), Some(TokenType::ArrayStart));
    assert_eq!(tokenizer.match_token("]"), Some(TokenType::ArrayEnd));
    assert_eq!(tokenizer.match_token("{"), Some(TokenType::DictStart));
    assert_eq!(tokenizer.match_token("}"), Some(TokenType::DictEnd));
    assert_eq!(tokenizer.match_token(":"), Some(TokenType::DictAssignmentOperator));
    assert_eq!(tokenizer.match_token(","), Some(TokenType::Seperator));
    assert_eq!(tokenizer.match_token("'ok'"), Some(TokenType::String));
    assert_eq!(tokenizer.match_token("-3.1"), Some(TokenType::Number));
    assert_eq!(tokenizer.match_token("  "), Some(TokenType::Whitespace));
    assert_eq!(tokenizer.match_token("@"), None);
    assert_eq!(tokenizer.match_token("-"), None);
    assert_eq!(tokenizer.match_token("\"open"), None);
}

#[test]
fn could_extend_tracks_viable_prefixes() {
    let tokenizer = Tokenizer::new();
    assert!(tokenizer.could_extend("-"));
    assert!(tokenizer.could_extend("12."));
    assert!(tokenizer.could_extend("\"ab"));
    assert!(tokenizer.could_extend(" "));
    assert!(!tokenizer.could_extend("("));
    assert!(!tokenizer.could_extend("\"ab\""));
    assert!(!tokenizer.could_extend("@"));
}

#[test]
fn cursor_walks_the_subject() {
    let mut cursor = Cursor::new("ab");
    assert!(!cursor.exhausted());
    assert_eq!(cursor.slice(), Some("a"));
    cursor.grow();
    assert_eq!(cursor.slice(), Some("ab"));
    cursor.grow();
    assert_eq!(cursor.slice(), Some("ab"));
    cursor.retract(1);
    assert_eq!(cursor.slice(), Some("a"));
    cursor.advance();
    assert_eq!(cursor.slice(), Some("b"));
    cursor.advance();
    assert_eq!(cursor.slice(), None);
    assert!(cursor.exhausted());
}

#[test]
fn token_stream_push_appends() {
    let mut stream = TokenStream::new(Vec::new());
    assert_eq!(stream.tokens.len(), 0);
    stream.push(Token {
        span: Span { start: 0, end: 1 },
        content: "(",
        token_type: TokenType::StructStart,
    });
    assert_eq!(stream.tokens.len(), 1);
    assert_eq!(stream.tokens[0].content, "(");
    let other = TokenStream::default();
    assert_eq!(other.tokens.len(), 0);
}
