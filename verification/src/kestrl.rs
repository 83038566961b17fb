//! The front end as one step: from source text to an expression tree.

use vstd::prelude::*;
use vstd::string::StringExecFns;
use crate::expressions::Expr;
use crate::grammar::expression;
use crate::parser::{ParseError, Parser};
use crate::scanner::{token_views, tokenize, ErrorReporter, Literal, Report, Scanner, Token};
use crate::token_types::TokenType;
use crate::text::{decimal, to_decimal};

verus! {

/// How a run of the front end ended.
#[derive(Debug, PartialEq)]
pub enum Run {
    /// An error had been reported, in this source or before it: the source
    /// was scanned and not parsed. The lexical errors of this source are
    /// listed.
    Stopped(Vec<Report>),
    /// The tokens of the source do not begin with an expression.
    Failed(ParseError),
    /// The expression that the source begins with.
    Parsed(Expr),
}

/// The line that describes an error: where it is and what is wrong.
pub open spec fn report_line(line: nat, location: Seq<char>, message: Seq<char>) -> Seq<char> {
    "[line "@ + decimal(line) + "] Error"@ + location + ": "@ + message
}

/// Whether a run on `source` stops before parsing: an error was reported
/// before, or the source has lexical errors.
pub open spec fn stops(had_error: bool, source: Seq<char>) -> bool {
    had_error || tokenize(source).1.len() > 0
}

/// Whether `run` is how the front end ends on `source`.
pub open spec fn runs(had_error: bool, source: Seq<char>, run: Run) -> bool {
    match run {
        Run::Stopped(reports) => {
            &&& stops(had_error, source)
            &&& reports@.map_values(|report: Report| report@) == tokenize(source).1
        },
        Run::Failed(error) => {
            &&& !stops(had_error, source)
            &&& expression(tokenize(source).0, 0) matches Err(message)
            &&& error@ == message
        },
        Run::Parsed(expr) => {
            &&& !stops(had_error, source)
            &&& expression(tokenize(source).0, 0) matches Ok((tree, read))
            &&& expr@ == tree
        },
    }
}

/// Runs the front end on a source and remembers whether an error was ever
/// reported.
pub struct Kestrl<'a> {
    source: &'a str,
    pub had_error: bool,
}

/// The mathematical state of a [`Kestrl`].
pub struct KestrlView {
    /// The source that `run` works on.
    pub source: Seq<char>,
    /// Whether an error has been reported.
    pub had_error: bool,
}

impl<'a> View for Kestrl<'a> {
    type V = KestrlView;

    closed spec fn view(&self) -> KestrlView {
        KestrlView { source: self.source@, had_error: self.had_error }
    }
}

impl<'a> Kestrl<'a> {
    /// A front end for `source`, with no error reported.
    pub fn new(source: &'a str) -> (kestrl: Self)
        ensures
            kestrl@ == (KestrlView { source: source@, had_error: false }),
    {
        Kestrl { source, had_error: false }
    }

    /// Whether an error has been reported.
    pub fn had_error(&self) -> (had: bool)
        ensures
            had == self@.had_error,
    {
        self.had_error
    }

    /// Scans `source` and, unless an error has been reported, closes its
    /// tokens with the end marker and parses them.
    fn front_end(source: &str, had_error: &mut bool) -> (run: Run)
        ensures
            runs(*old(had_error), source@, run),
            *final(had_error) == stops(*old(had_error), source@),
    {
        let mut scanner = Scanner::new(source);
        let mut reporter = ErrorReporter::new();
        let mut tokens = scanner.scan_tokens(&mut reporter);
        if reporter.had_error() {
            *had_error = true;
        }
        if *had_error {
            return Run::Stopped(reporter.reports);
        }
        let ghost scanned = token_views(tokens@);
        tokens.push(
            Token {
                token_type: TokenType::EOF,
                literal: Literal::Unknown(String::new()),
                line: scanner.line(),
            },
        );
        assert(token_views(tokens@) =~= scanned.push(tokens@.last()@));
        let mut parser = Parser::new(tokens);
        match parser.parse() {
            Ok(expr) => Run::Parsed(expr),
            Err(error) => Run::Failed(error),
        }
    }

    /// Runs the front end on the source given at construction.
    pub fn run(&mut self) -> (run: Run)
        ensures
            runs(old(self)@.had_error, old(self)@.source, run),
            final(self)@ == (KestrlView {
                had_error: stops(old(self)@.had_error, old(self)@.source),
                ..old(self)@
            }),
    {
        let mut had_error = self.had_error;
        let run = Self::front_end(self.source, &mut had_error);
        self.had_error = had_error;
        run
    }

    /// Runs the front end on one line of input. Lines are counted from one
    /// within `line_source`, whatever `_line_number` is.
    pub fn run_line(&mut self, line_source: &str, _line_number: usize) -> (run: Run)
        ensures
            runs(old(self)@.had_error, line_source@, run),
            final(self)@ == (KestrlView {
                had_error: stops(old(self)@.had_error, line_source@),
                ..old(self)@
            }),
    {
        let mut had_error = self.had_error;
        let run = Self::front_end(line_source, &mut had_error);
        self.had_error = had_error;
        run
    }

    /// Notes that an error was found, and returns the line that describes
    /// it.
    pub fn error(&mut self, line: usize, message: &str) -> (text: String)
        ensures
            final(self)@ == (KestrlView { had_error: true, ..old(self)@ }),
            text@ == report_line(line as nat, Seq::empty(), message@),
    {
        self.had_error = true;
        let text = self.report(line, "", message);
        proof {
            reveal_strlit("");
        }
        text
    }

    /// The line that describes an error found on `line`, at `where_`.
    pub fn report(&self, line: usize, where_: &str, message: &str) -> (text: String)
        ensures
            text@ == report_line(line as nat, where_@, message@),
    {
        let mut text = "[line ".to_owned();
        text.append(to_decimal(line).as_str());
        text.append("] Error");
        text.append(where_);
        text.append(": ");
        text.append(message);
        text
    }
}

} // verus!
