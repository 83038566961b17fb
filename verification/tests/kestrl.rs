use kestrl::expressions::{Expr, LiteralExpr};
use kestrl::kestrl::{Kestrl, Run};
use kestrl::parser::ParseError;
use kestrl::scanner::{Literal, Report};

fn number(numeral: &str) -> Expr {
    Expr::Literal(LiteralExpr { value: Literal::Number(numeral.to_string()) })
}

#[test]
fn run_parses_a_clean_source() {
    let mut kestrl = Kestrl::new("1 // one");
    assert!(!kestrl.had_error);
    assert_eq!(kestrl.run(), Run::Parsed(number("1")));
    assert!(!kestrl.had_error);
}

#[test]
fn run_stops_on_lexical_errors() {
    let mut kestrl = Kestrl::new("1 + @\n\"open");
    assert_eq!(
        kestrl.run(),
        Run::Stopped(vec![
            Report { line: 1, message: "Unexpected character: '@'".to_string() },
            Report { line: 2, message: "Unterminated string.".to_string() },
        ])
    );
    assert!(kestrl.had_error);
}

#[test]
fn run_fails_on_syntax_errors() {
    let mut kestrl = Kestrl::new("(1 + 2");
    assert_eq!(
        kestrl.run(),
        Run::Failed(ParseError { message: "Expect ')' after expression.".to_string() })
    );
    assert!(!kestrl.had_error);
}

#[test]
fn an_error_stops_the_lines_that_follow() {
    let mut kestrl = Kestrl::new("");
    assert_eq!(kestrl.run_line("1", 1), Run::Parsed(number("1")));
    assert_eq!(
        kestrl.run_line("#", 2),
        Run::Stopped(vec![Report { line: 1, message: "Unexpected character: '#'".to_string() }])
    );
    assert!(kestrl.had_error);
    assert_eq!(kestrl.run_line("2", 3), Run::Stopped(Vec::new()));
}

#[test]
fn error_sets_the_flag_and_describes_the_error() {
    let mut kestrl = Kestrl::new("");
    assert_eq!(kestrl.error(12, "Unterminated string."), "[line 12] Error: Unterminated string.");
    assert!(kestrl.had_error);
    assert_eq!(kestrl.run(), Run::Stopped(Vec::new()));
}

#[test]
fn report_describes_an_error_and_its_place() {
    let kestrl = Kestrl::new("");
    assert_eq!(kestrl.report(3, " at end", "Expect expression."), "[line 3] Error at end: Expect expression.");
    assert_eq!(kestrl.report(0, "", ""), "[line 0] Error: ");
    assert!(!kestrl.had_error);
}

#[test]
fn had_error_reads_the_flag() {
    let mut kestrl = Kestrl::new("#");
    assert!(!kestrl.had_error());
    kestrl.run();
    assert!(kestrl.had_error());
    assert_eq!(kestrl.had_error(), kestrl.had_error);
}

#[test]
fn run_closes_the_tokens_before_parsing() {
    let mut kestrl = Kestrl::new("1 +");
    assert_eq!(
        kestrl.run(),
        Run::Failed(ParseError { message: "Expect expression.".to_string() })
    );
    let mut kestrl = Kestrl::new("");
    assert_eq!(
        kestrl.run(),
        Run::Failed(ParseError { message: "Expect expression.".to_string() })
    );
}
