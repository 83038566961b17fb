use kestrl::scanner::{ErrorReporter, Literal, Report, Scanner, Token};
use kestrl::token_types::TokenType;

fn scan(source: &str) -> (Vec<Token>, Vec<Report>) {
    let mut scanner = Scanner::new(source);
    let mut reporter = ErrorReporter::new();
    let tokens = scanner.scan_tokens(&mut reporter);
    (tokens, reporter.reports)
}

fn kinds(tokens: &[Token]) -> Vec<TokenType> {
    tokens.iter().map(|token| token.token_type).collect()
}

fn text(value: &str) -> Literal {
    Literal::Str(value.to_string())
}

fn token(token_type: TokenType, literal: Literal, line: usize) -> Token {
    Token { token_type, literal, line }
}

#[test]
fn empty_source_yields_no_token() {
    let (tokens, reports) = scan("");
    assert!(tokens.is_empty());
    assert!(reports.is_empty());
}

#[test]
fn punctuation_maps_to_its_kind() {
    let (tokens, reports) = scan("(){},.-+;*");
    assert!(reports.is_empty());
    assert_eq!(
        tokens,
        vec![
            token(TokenType::LEFT_PAREN, text("("), 1),
            token(TokenType::RIGHT_PAREN, text(")"), 1),
            token(TokenType::LEFT_BRACE, text("{"), 1),
            token(TokenType::RIGHT_BRACE, text("}"), 1),
            token(TokenType::COMMA, text(","), 1),
            token(TokenType::DOT, text("."), 1),
            token(TokenType::MINUS, text("-"), 1),
            token(TokenType::PLUS, text("+"), 1),
            token(TokenType::SEMICOLON, text(";"), 1),
            token(TokenType::STAR, text("*"), 1),
        ]
    );
}

#[test]
fn operators_use_one_character_of_lookahead() {
    let (tokens, reports) = scan("! != = == < <= > >=");
    assert!(reports.is_empty());
    assert_eq!(
        tokens,
        vec![
            token(TokenType::BANG, text("!"), 1),
            token(TokenType::BANG_EQUAL, text("!="), 1),
            token(TokenType::EQUAL, text("="), 1),
            token(TokenType::EQUAL_EQUAL, text("=="), 1),
            token(TokenType::LESS, text("<"), 1),
            token(TokenType::LESS_EQUAL, text("<="), 1),
            token(TokenType::GREATER, text(">"), 1),
            token(TokenType::GREATER_EQUAL, text(">="), 1),
        ]
    );
}

#[test]
fn adjacent_operators_are_split_greedily() {
    let (tokens, _) = scan("!==<==");
    assert_eq!(
        kinds(&tokens),
        vec![
            TokenType::BANG_EQUAL,
            TokenType::EQUAL,
            TokenType::LESS_EQUAL,
            TokenType::EQUAL,
        ]
    );
}

#[test]
fn slash_keeps_its_raw_text() {
    let (tokens, reports) = scan("a / b");
    assert!(reports.is_empty());
    assert_eq!(
        tokens,
        vec![
            token(TokenType::IDENTIFIER, text("a"), 1),
            token(TokenType::SLASH, Literal::Unknown("/".to_string()), 1),
            token(TokenType::IDENTIFIER, text("b"), 1),
        ]
    );
}

#[test]
fn comment_runs_to_the_end_of_the_line() {
    let (tokens, reports) = scan("1 // two \"three\n4 // five");
    assert!(reports.is_empty());
    assert_eq!(
        tokens,
        vec![
            token(TokenType::NUMBER, Literal::Number("1".to_string()), 1),
            token(TokenType::NUMBER, Literal::Number("4".to_string()), 2),
        ]
    );
}

#[test]
fn whitespace_is_skipped_and_newlines_are_counted() {
    let (tokens, reports) = scan(" \t\r\n\n  x\n");
    assert!(reports.is_empty());
    assert_eq!(tokens, vec![token(TokenType::IDENTIFIER, text("x"), 3)]);
}

#[test]
fn numbers_keep_their_numeral() {
    let (tokens, reports) = scan("12 3.50 007");
    assert!(reports.is_empty());
    assert_eq!(
        tokens,
        vec![
            token(TokenType::NUMBER, Literal::Number("12".to_string()), 1),
            token(TokenType::NUMBER, Literal::Number("3.50".to_string()), 1),
            token(TokenType::NUMBER, Literal::Number("007".to_string()), 1),
        ]
    );
}

#[test]
fn trailing_point_is_not_part_of_a_number() {
    let (tokens, reports) = scan("1.x 2. 3.4.5");
    assert!(reports.is_empty());
    assert_eq!(
        tokens,
        vec![
            token(TokenType::NUMBER, Literal::Number("1".to_string()), 1),
            token(TokenType::DOT, text("."), 1),
            token(TokenType::IDENTIFIER, text("x"), 1),
            token(TokenType::NUMBER, Literal::Number("2".to_string()), 1),
            token(TokenType::DOT, text("."), 1),
            token(TokenType::NUMBER, Literal::Number("3.4".to_string()), 1),
            token(TokenType::DOT, text("."), 1),
            token(TokenType::NUMBER, Literal::Number("5".to_string()), 1),
        ]
    );
}

#[test]
fn reserved_words_have_their_own_kinds() {
    let (tokens, reports) = scan(
        "and class else false for fun if nil or print return super this true var while",
    );
    assert!(reports.is_empty());
    assert_eq!(
        kinds(&tokens),
        vec![
            TokenType::AND,
            TokenType::CLASS,
            TokenType::ELSE,
            TokenType::FALSE,
            TokenType::FOR,
            TokenType::FUN,
            TokenType::IF,
            TokenType::NIL,
            TokenType::OR,
            TokenType::PRINT,
            TokenType::RETURN,
            TokenType::SUPER,
            TokenType::THIS,
            TokenType::TRUE,
            TokenType::VAR,
            TokenType::WHILE,
        ]
    );
    assert_eq!(tokens[0].literal, text("and"));
    assert_eq!(tokens[15].literal, text("while"));
}

#[test]
fn reserved_words_are_case_sensitive_and_whole() {
    let (tokens, _) = scan("Nil nil_ _nil classes or2 TRUE");
    assert_eq!(
        tokens,
        vec![
            token(TokenType::IDENTIFIER, text("Nil"), 1),
            token(TokenType::IDENTIFIER, text("nil_"), 1),
            token(TokenType::IDENTIFIER, text("_nil"), 1),
            token(TokenType::IDENTIFIER, text("classes"), 1),
            token(TokenType::IDENTIFIER, text("or2"), 1),
            token(TokenType::IDENTIFIER, text("TRUE"), 1),
        ]
    );
}

#[test]
fn string_literal_holds_its_content() {
    let (tokens, reports) = scan("\"foo\" + \"bar\"");
    assert!(reports.is_empty());
    assert_eq!(
        tokens,
        vec![
            token(TokenType::STRING, text("foo"), 1),
            token(TokenType::PLUS, text("+"), 1),
            token(TokenType::STRING, text("bar"), 1),
        ]
    );
}

#[test]
fn string_content_is_stripped_and_collapsed() {
    let (tokens, reports) = scan("\"  a\\b \t c\\ \\ d\u{a0}\u{3000}e  \"");
    assert!(reports.is_empty());
    assert_eq!(tokens, vec![token(TokenType::STRING, text("ab c d e"), 1)]);
}

#[test]
fn empty_and_blank_strings_are_empty() {
    let (tokens, reports) = scan("\"\" \" \\ \"");
    assert!(reports.is_empty());
    assert_eq!(
        tokens,
        vec![token(TokenType::STRING, text(""), 1), token(TokenType::STRING, text(""), 1)]
    );
}

#[test]
fn string_may_span_lines() {
    let (tokens, reports) = scan("\"one\ntwo\n\" x");
    assert!(reports.is_empty());
    assert_eq!(
        tokens,
        vec![
            token(TokenType::STRING, text("one two"), 3),
            token(TokenType::IDENTIFIER, text("x"), 3),
        ]
    );
}

#[test]
fn unterminated_string_is_reported_once_and_yields_no_token() {
    let (tokens, reports) = scan("\"abc");
    assert_eq!(reports, vec![Report { line: 1, message: "Unterminated string.".to_string() }]);
    assert!(tokens.is_empty());
}

#[test]
fn unterminated_string_is_reported_on_its_last_line() {
    let (tokens, reports) = scan("1 \"abc\ndef\n");
    assert_eq!(reports, vec![Report { line: 3, message: "Unterminated string.".to_string() }]);
    assert_eq!(
        tokens,
        vec![token(TokenType::NUMBER, Literal::Number("1".to_string()), 1)]
    );
}

#[test]
fn unexpected_characters_are_reported_and_skipped() {
    let (tokens, reports) = scan("1 @ 2\n# $");
    assert_eq!(
        reports,
        vec![
            Report { line: 1, message: "Unexpected character: '@'".to_string() },
            Report { line: 2, message: "Unexpected character: '#'".to_string() },
            Report { line: 2, message: "Unexpected character: '$'".to_string() },
        ]
    );
    assert_eq!(
        tokens,
        vec![
            token(TokenType::NUMBER, Literal::Number("1".to_string()), 1),
            token(TokenType::NUMBER, Literal::Number("2".to_string()), 1),
        ]
    );
}

#[test]
fn characters_outside_ascii_are_read_whole() {
    let (tokens, reports) = scan("é+\"日本 語\"");
    assert_eq!(reports, vec![Report { line: 1, message: "Unexpected character: 'é'".to_string() }]);
    assert_eq!(
        tokens,
        vec![
            token(TokenType::PLUS, text("+"), 1),
            token(TokenType::STRING, text("日本 語"), 1),
        ]
    );
}

#[test]
fn nul_character_is_unexpected() {
    let (tokens, reports) = scan("a\0b");
    assert_eq!(reports, vec![Report { line: 1, message: "Unexpected character: '\0'".to_string() }]);
    assert_eq!(
        tokens,
        vec![
            token(TokenType::IDENTIFIER, text("a"), 1),
            token(TokenType::IDENTIFIER, text("b"), 1),
        ]
    );
}

#[test]
fn scanner_primitives_move_the_cursor() {
    let mut scanner = Scanner::new("ab");
    assert!(!scanner.is_at_end());
    assert_eq!(scanner.peek(), 'a');
    assert_eq!(scanner.peek_next(), 'b');
    assert!(!scanner.match_next('b'));
    assert!(scanner.match_next('a'));
    assert_eq!(scanner.peek_next(), '\0');
    assert_eq!(scanner.advance(), 'b');
    assert!(scanner.is_at_end());
    assert_eq!(scanner.peek(), '\0');
    assert_eq!(scanner.advance(), '\0');
    assert!(!scanner.match_next('\0'));
}

#[test]
fn character_classes() {
    let scanner = Scanner::new("");
    assert!(scanner.is_digit('0') && scanner.is_digit('9'));
    assert!(!scanner.is_digit('a') && !scanner.is_digit('٣'));
    assert!(scanner.is_alpha('a') && scanner.is_alpha('Z') && scanner.is_alpha('_'));
    assert!(!scanner.is_alpha('1') && !scanner.is_alpha('é'));
    assert!(scanner.is_alphanumeric('x') && scanner.is_alphanumeric('7'));
    assert!(!scanner.is_alphanumeric('-'));
}

#[test]
fn add_token_uses_the_raw_text_when_no_literal_is_given() {
    let mut scanner = Scanner::new("abc");
    scanner.advance();
    scanner.advance();
    scanner.add_token(TokenType::IDENTIFIER, None);
    scanner.add_token(TokenType::NIL, Some(Literal::Nil));
    let mut reporter = ErrorReporter::new();
    let tokens = scanner.scan_tokens(&mut reporter);
    assert_eq!(
        tokens,
        vec![
            token(TokenType::IDENTIFIER, Literal::Unknown("ab".to_string()), 1),
            token(TokenType::NIL, Literal::Nil, 1),
            token(TokenType::IDENTIFIER, text("c"), 1),
        ]
    );
}

#[test]
fn scanning_twice_yields_nothing_more() {
    let mut scanner = Scanner::new("1\n");
    let mut reporter = ErrorReporter::new();
    let first = scanner.scan_tokens(&mut reporter);
    let second = scanner.scan_tokens(&mut reporter);
    assert_eq!(first, vec![token(TokenType::NUMBER, Literal::Number("1".to_string()), 1)]);
    assert!(second.is_empty());
    assert_eq!(scanner.line(), 2);
}

#[test]
fn lexemes_rebuild_the_source_without_blanks_and_comments() {
    let source = "var x = (a1 + 2.5) / 3 >= -y; // done\n!z == nil";
    let (tokens, reports) = scan(source);
    assert!(reports.is_empty());
    let mut rebuilt = String::new();
    for token in &tokens {
        match &token.literal {
            Literal::Number(raw) | Literal::Str(raw) | Literal::Unknown(raw) => {
                rebuilt.push_str(raw)
            }
            _ => {}
        }
    }
    assert_eq!(rebuilt, "varx=(a1+2.5)/3>=-y;!z==nil");
}

#[test]
fn edge_cases_at_the_end_of_the_source() {
    let (tokens, reports) = scan("1.");
    assert!(reports.is_empty());
    assert_eq!(
        tokens,
        vec![
            token(TokenType::NUMBER, Literal::Number("1".to_string()), 1),
            token(TokenType::DOT, text("."), 1),
        ]
    );
    let (tokens, _) = scan(".5");
    assert_eq!(
        tokens,
        vec![
            token(TokenType::DOT, text("."), 1),
            token(TokenType::NUMBER, Literal::Number("5".to_string()), 1),
        ]
    );
    let (tokens, _) = scan("/");
    assert_eq!(tokens, vec![token(TokenType::SLASH, Literal::Unknown("/".to_string()), 1)]);
    let (tokens, reports) = scan("//");
    assert!(reports.is_empty());
    assert!(tokens.is_empty());
    let (tokens, _) = scan("!");
    assert_eq!(tokens, vec![token(TokenType::BANG, text("!"), 1)]);
    let (tokens, reports) = scan("\"");
    assert_eq!(reports, vec![Report { line: 1, message: "Unterminated string.".to_string() }]);
    assert!(tokens.is_empty());
    let (tokens, _) = scan("\n");
    assert!(tokens.is_empty());
}

#[test]
fn a_comment_ends_before_the_line_feed() {
    let (tokens, _) = scan("// a\n// b\nc");
    assert_eq!(tokens, vec![token(TokenType::IDENTIFIER, text("c"), 3)]);
}

#[test]
fn words_and_numbers_end_where_their_characters_end() {
    let (tokens, _) = scan("a_b1.c2 3d");
    assert_eq!(
        tokens,
        vec![
            token(TokenType::IDENTIFIER, text("a_b1"), 1),
            token(TokenType::DOT, text("."), 1),
            token(TokenType::IDENTIFIER, text("c2"), 1),
            token(TokenType::NUMBER, Literal::Number("3".to_string()), 1),
            token(TokenType::IDENTIFIER, text("d"), 1),
        ]
    );
}

#[test]
fn scan_token_scans_one_unit() {
    let mut scanner = Scanner::new("<= x");
    let mut reporter = ErrorReporter::new();
    scanner.scan_token(&mut reporter);
    assert_eq!(scanner.peek(), ' ');
    scanner.scan_token(&mut reporter);
    assert_eq!(scanner.peek(), 'x');
    scanner.scan_token(&mut reporter);
    assert!(scanner.is_at_end());
    scanner.scan_token(&mut reporter);
    assert!(!reporter.had_error());
    assert_eq!(
        scanner.scan_tokens(&mut reporter),
        vec![
            token(TokenType::LESS_EQUAL, text("<="), 1),
            token(TokenType::IDENTIFIER, text("x"), 1),
        ]
    );
}

#[test]
fn number_scans_the_rest_of_a_numeral() {
    let mut scanner = Scanner::new("12.5.x");
    scanner.advance();
    scanner.number();
    assert_eq!(scanner.peek(), '.');
    assert_eq!(scanner.peek_next(), 'x');
    let mut reporter = ErrorReporter::new();
    let tokens = scanner.scan_tokens(&mut reporter);
    assert_eq!(tokens[0], token(TokenType::NUMBER, Literal::Number("12.5".to_string()), 1));
}

#[test]
fn identifier_scans_the_rest_of_a_word() {
    let mut scanner = Scanner::new("while1 nil");
    scanner.advance();
    scanner.identifier();
    assert_eq!(scanner.peek(), ' ');
    scanner.advance();
    let mut reporter = ErrorReporter::new();
    scanner.scan_token(&mut reporter);
    let tokens = scanner.scan_tokens(&mut reporter);
    assert_eq!(
        tokens,
        vec![
            token(TokenType::IDENTIFIER, text("while1"), 1),
            token(TokenType::IDENTIFIER, text("while1 nil"), 1),
        ]
    );
}

#[test]
fn string_scans_the_rest_of_a_literal() {
    let mut scanner = Scanner::new("\"a\nb\" \"c");
    let mut reporter = ErrorReporter::new();
    scanner.advance();
    scanner.string(&mut reporter);
    assert!(!reporter.had_error());
    assert_eq!(scanner.peek(), ' ');
    scanner.advance();
    scanner.advance();
    scanner.string(&mut reporter);
    assert_eq!(reporter.reports, vec![Report { line: 2, message: "Unterminated string.".to_string() }]);
    assert!(scanner.is_at_end());
    assert_eq!(
        scanner.scan_tokens(&mut reporter),
        vec![token(TokenType::STRING, text("a b"), 2)]
    );
}

#[test]
fn reporter_collects_in_order() {
    let mut reporter = ErrorReporter::new();
    assert!(!reporter.had_error());
    reporter.report(3, "first");
    reporter.report(1, "second");
    assert!(reporter.had_error());
    assert_eq!(
        reporter.reports,
        vec![
            Report { line: 3, message: "first".to_string() },
            Report { line: 1, message: "second".to_string() },
        ]
    );
}

#[test]
fn tokens_can_be_cloned() {
    let (tokens, _) = scan("1 \"a\" x");
    for token in &tokens {
        assert_eq!(&token.clone(), token);
    }
}

#[test]
fn no_end_marker_is_added() {
    for source in ["", "1 @ 2", "@\n#", "1.", "\"a\\b   c\"", "a <= b // c\n!= (x)", "\"open"] {
        let (tokens, _) = scan(source);
        assert!(tokens.iter().all(|token| token.token_type != TokenType::EOF), "{:?}", source);
    }
}

#[test]
fn scanning_goes_on_past_a_bad_character() {
    let (tokens, reports) = scan("1 @ 2");
    assert_eq!(reports, vec![Report { line: 1, message: "Unexpected character: '@'".to_string() }]);
    assert_eq!(
        tokens,
        vec![
            token(TokenType::NUMBER, Literal::Number("1".to_string()), 1),
            token(TokenType::NUMBER, Literal::Number("2".to_string()), 1),
        ]
    );
    let (tokens, reports) = scan("@\n#");
    assert!(tokens.is_empty());
    assert_eq!(
        reports,
        vec![
            Report { line: 1, message: "Unexpected character: '@'".to_string() },
            Report { line: 2, message: "Unexpected character: '#'".to_string() },
        ]
    );
}

#[test]
fn kinds_texts_and_lines_of_a_source_of_two_lines() {
    let (tokens, reports) = scan("a <= b // c\n!= (x)");
    assert!(reports.is_empty());
    assert_eq!(
        kinds(&tokens),
        vec![
            TokenType::IDENTIFIER,
            TokenType::LESS_EQUAL,
            TokenType::IDENTIFIER,
            TokenType::BANG_EQUAL,
            TokenType::LEFT_PAREN,
            TokenType::IDENTIFIER,
            TokenType::RIGHT_PAREN,
        ]
    );
    let lines: Vec<usize> = tokens.iter().map(|token| token.line).collect();
    assert_eq!(lines, vec![1, 1, 1, 2, 2, 2, 2]);
    let mut joined = String::new();
    for token in &tokens {
        if let Literal::Str(raw) = &token.literal {
            joined.push_str(raw);
        }
    }
    assert_eq!(joined, "a<=b!=(x)");
}

#[test]
fn a_string_literal_is_one_token() {
    let (tokens, reports) = scan("\"a\\b   c\"");
    assert!(reports.is_empty());
    assert_eq!(tokens, vec![token(TokenType::STRING, text("ab c"), 1)]);
}

#[test]
fn no_more_tokens_and_reports_than_characters() {
    for source in ["", "@", "1", "1 @ 2", "(){}", "!===", "\"", "\"\"", "a.b", "// x", "\n\n", "é#"] {
        let (tokens, reports) = scan(source);
        assert!(tokens.len() + reports.len() <= source.chars().count(), "{:?}", source);
    }
}

#[test]
fn line_follows_the_cursor() {
    let mut scanner = Scanner::new("a\n\"b\nc\"\n");
    assert_eq!(scanner.line(), 1);
    let mut reporter = ErrorReporter::new();
    scanner.scan_token(&mut reporter);
    assert_eq!(scanner.line(), 1);
    scanner.scan_token(&mut reporter);
    assert_eq!(scanner.line(), 2);
    scanner.scan_tokens(&mut reporter);
    assert_eq!(scanner.line(), 4);
    assert_eq!(Scanner::new(" \t\r\n\n  x\n").line(), 1);
}
