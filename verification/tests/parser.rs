use kestrl::expressions::{BinaryExpr, Expr, GroupingExpr, LiteralExpr, UnaryExpr};
use kestrl::parser::{ParseError, Parser};
use kestrl::scanner::{ErrorReporter, Literal, Scanner, Token};
use kestrl::token_types::TokenType;

fn tokens_of(source: &str) -> Vec<Token> {
    let mut scanner = Scanner::new(source);
    let mut reporter = ErrorReporter::new();
    let tokens = scanner.scan_tokens(&mut reporter);
    assert!(!reporter.had_error());
    tokens
}

fn parse(source: &str) -> Result<Expr, ParseError> {
    Parser::new(tokens_of(source)).parse()
}

fn number(numeral: &str) -> Expr {
    Expr::Literal(LiteralExpr { value: Literal::Number(numeral.to_string()) })
}

fn literal(value: Literal) -> Expr {
    Expr::Literal(LiteralExpr { value })
}

fn operator(token_type: TokenType, lexeme: &str) -> Token {
    let literal = if token_type == TokenType::SLASH {
        Literal::Unknown(lexeme.to_string())
    } else {
        Literal::Str(lexeme.to_string())
    };
    Token { token_type, literal, line: 1 }
}

fn binary(left: Expr, token_type: TokenType, lexeme: &str, right: Expr) -> Expr {
    Expr::Binary(Box::new(BinaryExpr { left, operator: operator(token_type, lexeme), right }))
}

fn unary(token_type: TokenType, lexeme: &str, right: Expr) -> Expr {
    Expr::Unary(Box::new(UnaryExpr { operator: operator(token_type, lexeme), right }))
}

fn grouping(expression: Expr) -> Expr {
    Expr::Grouping(Box::new(GroupingExpr { expression }))
}

fn failure(message: &str) -> Result<Expr, ParseError> {
    Err(ParseError { message: message.to_string() })
}

#[test]
fn primaries() {
    assert_eq!(parse("12.5"), Ok(number("12.5")));
    assert_eq!(parse("\"a b\""), Ok(literal(Literal::Str("a b".to_string()))));
    assert_eq!(parse("true"), Ok(literal(Literal::Bool(true))));
    assert_eq!(parse("false"), Ok(literal(Literal::Bool(false))));
    assert_eq!(parse("nil"), Ok(literal(Literal::Nil)));
    assert_eq!(parse("(nil)"), Ok(grouping(literal(Literal::Nil))));
}

#[test]
fn multiplication_binds_tighter_than_addition() {
    assert_eq!(
        parse("2 + 3 * 4"),
        Ok(binary(
            number("2"),
            TokenType::PLUS,
            "+",
            binary(number("3"), TokenType::STAR, "*", number("4")),
        ))
    );
}

#[test]
fn binary_operators_associate_to_the_left() {
    assert_eq!(
        parse("10 - 2 - 3"),
        Ok(binary(
            binary(number("10"), TokenType::MINUS, "-", number("2")),
            TokenType::MINUS,
            "-",
            number("3"),
        ))
    );
    assert_eq!(
        parse("8 / 4 * 2"),
        Ok(binary(
            binary(number("8"), TokenType::SLASH, "/", number("4")),
            TokenType::STAR,
            "*",
            number("2"),
        ))
    );
}

#[test]
fn levels_nest_from_equality_down_to_unary() {
    assert_eq!(
        parse("1 == 2 < 3 + 4 * -5"),
        Ok(binary(
            number("1"),
            TokenType::EQUAL_EQUAL,
            "==",
            binary(
                number("2"),
                TokenType::LESS,
                "<",
                binary(
                    number("3"),
                    TokenType::PLUS,
                    "+",
                    binary(
                        number("4"),
                        TokenType::STAR,
                        "*",
                        unary(TokenType::MINUS, "-", number("5")),
                    ),
                ),
            ),
        ))
    );
}

#[test]
fn every_operator_is_recognised_at_its_level() {
    for (source, token_type, lexeme) in [
        ("1 != 2", TokenType::BANG_EQUAL, "!="),
        ("1 == 2", TokenType::EQUAL_EQUAL, "=="),
        ("1 > 2", TokenType::GREATER, ">"),
        ("1 >= 2", TokenType::GREATER_EQUAL, ">="),
        ("1 < 2", TokenType::LESS, "<"),
        ("1 <= 2", TokenType::LESS_EQUAL, "<="),
        ("1 - 2", TokenType::MINUS, "-"),
        ("1 + 2", TokenType::PLUS, "+"),
        ("1 / 2", TokenType::SLASH, "/"),
        ("1 * 2", TokenType::STAR, "*"),
    ] {
        assert_eq!(parse(source), Ok(binary(number("1"), token_type, lexeme, number("2"))));
    }
}

#[test]
fn unary_operators_nest_to_the_right() {
    assert_eq!(
        parse("!-!true"),
        Ok(unary(
            TokenType::BANG,
            "!",
            unary(TokenType::MINUS, "-", unary(TokenType::BANG, "!", literal(Literal::Bool(true)))),
        ))
    );
}

#[test]
fn grouping_overrides_precedence() {
    assert_eq!(
        parse("(1 + 2) * 3"),
        Ok(binary(
            grouping(binary(number("1"), TokenType::PLUS, "+", number("2"))),
            TokenType::STAR,
            "*",
            number("3"),
        ))
    );
}

#[test]
fn operator_tokens_keep_their_line() {
    let parsed = parse("1\n+\n2");
    let mut plus = operator(TokenType::PLUS, "+");
    plus.line = 2;
    assert_eq!(
        parsed,
        Ok(Expr::Binary(Box::new(BinaryExpr { left: number("1"), operator: plus, right: number("2") })))
    );
}

#[test]
fn unclosed_grouping_fails() {
    assert_eq!(parse("(1 + 2"), failure("Expect ')' after expression."));
    assert_eq!(parse("((1)"), failure("Expect ')' after expression."));
    assert_eq!(parse("(1 2)"), failure("Expect ')' after expression."));
}

#[test]
fn missing_expression_fails() {
    assert_eq!(parse(""), failure("Expect expression."));
    assert_eq!(parse("+"), failure("Expect expression."));
    assert_eq!(parse("1 +"), failure("Expect expression."));
    assert_eq!(parse("()"), failure("Expect expression."));
    assert_eq!(parse("x"), failure("Expect expression."));
    assert_eq!(parse("1 * (2 - )"), failure("Expect expression."));
}

#[test]
fn tokens_after_the_expression_are_left_unread() {
    assert_eq!(parse("1 2"), Ok(number("1")));
    assert_eq!(parse("1 ) + 2"), Ok(number("1")));
}

#[test]
fn parser_works_without_an_end_marker() {
    let tokens = tokens_of("1 + 2");
    assert!(tokens.iter().all(|token| token.token_type != TokenType::EOF));
    assert_eq!(
        Parser::new(tokens).parse(),
        Ok(binary(number("1"), TokenType::PLUS, "+", number("2")))
    );
    assert_eq!(Parser::new(Vec::new()).parse(), failure("Expect expression."));
}

#[test]
fn parser_stops_at_an_end_marker() {
    let mut tokens = tokens_of("1");
    tokens.push(Token {
        token_type: TokenType::EOF,
        literal: Literal::Unknown(String::new()),
        line: 1,
    });
    tokens.extend(tokens_of("+ 2"));
    assert_eq!(Parser::new(tokens).parse(), Ok(number("1")));
}

#[test]
fn expr_parses_like_parse() {
    let mut parser = Parser::new(tokens_of("1 < 2"));
    assert_eq!(parser.expr(), Ok(binary(number("1"), TokenType::LESS, "<", number("2"))));
}

#[test]
fn synchronize_stops_after_a_semicolon() {
    let mut parser = Parser::new(tokens_of("1 + ; 2 3"));
    parser.synchronize();
    assert_eq!(parser.parse(), Ok(number("2")));
    let mut parser = Parser::new(tokens_of("; 1"));
    parser.synchronize();
    assert_eq!(parser.parse(), Ok(number("1")));
}

#[test]
fn synchronize_stops_before_a_statement_keyword() {
    let mut parser = Parser::new(tokens_of("1 2 3"));
    parser.synchronize();
    assert_eq!(parser.parse(), failure("Expect expression."));
    for keyword in ["class", "fun", "var", "for", "if", "while", "print", "return"] {
        let source = format!("+ 1 {} (2", keyword);
        let mut parser = Parser::new(tokens_of(&source));
        parser.synchronize();
        assert_eq!(parser.parse(), failure("Expect expression."));
        parser.synchronize();
        assert_eq!(parser.parse(), failure("Expect expression."));
    }
    for word in ["and", "else", "or", "super", "this", "x"] {
        let source = format!("+ 1 {} ; 2", word);
        let mut parser = Parser::new(tokens_of(&source));
        parser.synchronize();
        assert_eq!(parser.parse(), Ok(number("2")));
    }
}

#[test]
fn expression_trees_can_be_cloned() {
    let tree = parse("-(1 + \"a\") == nil").unwrap();
    assert_eq!(tree.clone(), tree);
}
