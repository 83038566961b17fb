//! Tokens and the scanner that produces them from source text.

use vstd::prelude::*;
use crate::lexicon::{
    char_at, collapse, is_alpha, is_alphanumeric, is_digit, newlines, number_end, operator,
    punctuation, run_end, unexpected_character, word_type, CharClass,
};
use crate::lexicon::{
    lemma_newlines_bound, lemma_newlines_push, lemma_run_end, lemma_run_end_from,
};
use crate::text::{chars_of, collapsed, single, spells, string_of};
use crate::token_types::TokenType;

verus! {

/// The value attached to a token.
#[derive(Debug, PartialEq)]
pub enum Literal {
    /// A numeral exactly as written: digits, optionally a point and more
    /// digits. It denotes the double nearest to that decimal.
    Number(String),
    /// Text: the content of a string literal, or the spelling of a
    /// punctuation mark, operator, identifier or reserved word.
    Str(String),
    Bool(bool),
    /// Raw source text of a token that carries no more precise value.
    Unknown(String),
    Nil,
}

/// The mathematical value of a [`Literal`].
pub enum LiteralView {
    Number(Seq<char>),
    Str(Seq<char>),
    Bool(bool),
    Unknown(Seq<char>),
    Nil,
}

impl View for Literal {
    type V = LiteralView;

    open spec fn view(&self) -> LiteralView {
        match *self {
            Literal::Number(text) => LiteralView::Number(text@),
            Literal::Str(text) => LiteralView::Str(text@),
            Literal::Bool(b) => LiteralView::Bool(b),
            Literal::Unknown(text) => LiteralView::Unknown(text@),
            Literal::Nil => LiteralView::Nil,
        }
    }
}

impl Clone for Literal {
    fn clone(&self) -> (copy: Self)
        ensures
            copy == *self,
    {
        match self {
            Literal::Number(text) => Literal::Number(text.clone()),
            Literal::Str(text) => Literal::Str(text.clone()),
            Literal::Bool(b) => Literal::Bool(*b),
            Literal::Unknown(text) => Literal::Unknown(text.clone()),
            Literal::Nil => Literal::Nil,
        }
    }
}

/// A classified, positioned unit of lexical input.
#[derive(Debug, PartialEq)]
pub struct Token {
    pub token_type: TokenType,
    pub literal: Literal,
    pub line: usize,
}

/// The mathematical value of a [`Token`].
pub struct TokenView {
    pub token_type: TokenType,
    pub literal: LiteralView,
    pub line: nat,
}

impl View for Token {
    type V = TokenView;

    open spec fn view(&self) -> TokenView {
        TokenView { token_type: self.token_type, literal: self.literal@, line: self.line as nat }
    }
}

impl Clone for Token {
    fn clone(&self) -> (copy: Self)
        ensures
            copy == *self,
    {
        Token { token_type: self.token_type, literal: self.literal.clone(), line: self.line }
    }
}

/// The views of a sequence of tokens.
pub open spec fn token_views(tokens: Seq<Token>) -> Seq<TokenView> {
    tokens.map_values(|token: Token| token@)
}

/// A lexical error: where it was found and what is wrong.
#[derive(Debug, PartialEq)]
pub struct Report {
    pub line: usize,
    pub message: String,
}

/// The mathematical value of a [`Report`].
pub struct ReportView {
    pub line: nat,
    pub message: Seq<char>,
}

impl View for Report {
    type V = ReportView;

    open spec fn view(&self) -> ReportView {
        ReportView { line: self.line as nat, message: self.message@ }
    }
}

/// Collects the lexical errors that a scan reports. The caller owns it,
/// hands it to the scanner, and decides afterwards whether the errors it
/// holds should stop the pipeline.
pub struct ErrorReporter {
    pub reports: Vec<Report>,
}

impl View for ErrorReporter {
    type V = Seq<ReportView>;

    open spec fn view(&self) -> Seq<ReportView> {
        self.reports@.map_values(|report: Report| report@)
    }
}

impl ErrorReporter {
    /// A reporter that holds no error yet.
    pub fn new() -> (reporter: Self)
        ensures
            reporter@ == Seq::<ReportView>::empty(),
    {
        let reporter = ErrorReporter { reports: Vec::new() };
        reporter
    }

    /// Records an error found on `line`.
    pub fn report(&mut self, line: usize, message: &str)
        ensures
            final(self)@ == old(self)@.push(ReportView { line: line as nat, message: message@ }),
    {
        self.reports.push(Report { line, message: message.to_owned() });
    }

    /// Whether any error has been reported.
    pub fn had_error(&self) -> (had: bool)
        ensures
            had == (self@.len() > 0),
    {
        self.reports.len() > 0
    }
}

/// The mathematical state of a [`Scanner`].
pub struct ScannerView {
    /// The text being scanned.
    pub source: Seq<char>,
    /// The tokens recognised so far.
    pub tokens: Seq<TokenView>,
    /// Where the lexical unit being scanned begins.
    pub start: int,
    /// The next character to read.
    pub current: int,
    /// The line that `current` is on, counted from one.
    pub line: nat,
}

impl ScannerView {
    /// The cursor lies within the source, the unit being scanned ends at the
    /// cursor, and no more lines were counted than characters were read.
    pub open spec fn wf(self) -> bool {
        &&& 0 <= self.start <= self.current <= self.source.len()
        &&& self.line <= self.current + 1
    }

    /// Whether every character has been read.
    pub open spec fn at_end(self) -> bool {
        self.current >= self.source.len()
    }

    /// The next character, or NUL at the end.
    pub open spec fn peek(self) -> char {
        char_at(self.source, self.current)
    }

    /// The character after the next, or NUL if there is none.
    pub open spec fn peek_next(self) -> char {
        char_at(self.source, self.current + 1)
    }

    /// The text of the unit being scanned.
    pub open spec fn lexeme(self) -> Seq<char> {
        self.source.subrange(self.start, self.current)
    }

    /// The state with the cursor at `at`.
    pub open spec fn at(self, at: int) -> Self {
        ScannerView { current: at, ..self }
    }

    /// The state after reading one character, if there is one.
    pub open spec fn advance(self) -> Self {
        if self.at_end() {
            self
        } else {
            self.at(self.current + 1)
        }
    }

    /// The state with one more token, positioned on the current line.
    pub open spec fn with_token(self, token_type: TokenType, literal: LiteralView) -> Self {
        ScannerView {
            tokens: self.tokens.push(TokenView { token_type, literal, line: self.line }),
            ..self
        }
    }

    /// The state with a new unit beginning at the cursor.
    pub open spec fn restart(self) -> Self {
        ScannerView { start: self.current, ..self }
    }
}

impl ScannerView {
    /// The state after the rest of a word: the cursor moves past the
    /// letters, digits and underscores that follow, and the word becomes a
    /// token, of its own kind if it is reserved.
    pub open spec fn identifier(self) -> Self {
        let word = self.at(run_end(self.source, self.current, CharClass::Alphanumeric));
        word.with_token(word_type(word.lexeme()), LiteralView::Str(word.lexeme()))
    }

    /// The state after the rest of a numeral: the cursor moves to the end of
    /// the numeral, which becomes a `NUMBER` token that holds its text.
    pub open spec fn number(self) -> Self {
        let numeral = self.at(number_end(self.source, self.current));
        numeral.with_token(TokenType::NUMBER, LiteralView::Number(numeral.lexeme()))
    }

    /// Whether the text between the quotes of a string begun here is a
    /// range: either the opening quote has been read, or the next character
    /// does not close the string at once.
    pub open spec fn in_string(self) -> bool {
        self.start < self.current || self.peek() != '"'
    }

    /// The state after the rest of a string literal, and what is reported.
    /// The cursor moves past the closing quote and the collapsed content
    /// becomes a `STRING` token; line feeds inside the string are counted.
    /// Without a closing quote the cursor moves to the end of the source,
    /// no token is added, and "Unterminated string." is reported.
    pub open spec fn string(self) -> (Self, Seq<ReportView>) {
        let close = run_end(self.source, self.current, CharClass::Quoted);
        let line = self.line + newlines(self.source.subrange(self.current, close));
        let read = ScannerView { line, ..self };
        if close >= self.source.len() {
            (read.at(close), seq![ReportView { line, message: "Unterminated string."@ }])
        } else {
            (
                read.at(close + 1).with_token(
                    TokenType::STRING,
                    LiteralView::Str(collapse(self.source.subrange(self.start + 1, close))),
                ),
                Seq::empty(),
            )
        }
    }

    /// The state after one lexical unit that begins at the cursor, and what
    /// is reported: a token, a comment or whitespace that is skipped, or a
    /// character that begins no token and is reported.
    pub open spec fn scan_token(self) -> (Self, Seq<ReportView>) {
        let c = self.peek();
        let next = self.advance();
        if self.at_end() {
            (self, Seq::empty())
        } else if punctuation(c) is Some {
            (next.with_token(punctuation(c)->0, LiteralView::Str(seq![c])), Seq::empty())
        } else if operator(c, false) is Some {
            let doubled = next.peek() == '=';
            let read = if doubled { next.advance() } else { next };
            (
                read.with_token(operator(c, doubled)->0, LiteralView::Str(read.lexeme())),
                Seq::empty(),
            )
        } else if c == '/' {
            if next.peek() == '/' {
                (next.at(run_end(self.source, next.current + 1, CharClass::Comment)), Seq::empty())
            } else {
                (
                    next.with_token(TokenType::SLASH, LiteralView::Unknown(next.lexeme())),
                    Seq::empty(),
                )
            }
        } else if c == '"' {
            next.string()
        } else if c == ' ' || c == '\r' || c == '\t' {
            (next.restart(), Seq::empty())
        } else if c == '\n' {
            (ScannerView { line: next.line + 1, ..next.restart() }, Seq::empty())
        } else if is_digit(c) {
            (next.number(), Seq::empty())
        } else if is_alpha(c) {
            (next.identifier(), Seq::empty())
        } else {
            (next, seq![ReportView { line: self.line, message: unexpected_character(c) }])
        }
    }
}

impl ScannerView {
    /// The token that marks the end of the input. The scanner does not add
    /// it: a caller that needs the marker appends it to the tokens.
    pub open spec fn end_of_file(self) -> TokenView {
        TokenView {
            token_type: TokenType::EOF,
            literal: LiteralView::Unknown(Seq::empty()),
            line: self.line,
        }
    }

    /// The state after every lexical unit from the cursor to the end of the
    /// source, each begun where the one before ended, and all that is
    /// reported on the way, in order. A state that is not well formed is
    /// left as it is.
    pub open spec fn scan_rest(self) -> (Self, Seq<ReportView>)
        decreases self.source.len() - self.current,
        via Self::scan_rest_terminates
    {
        if self.at_end() || !self.wf() {
            (self, Seq::empty())
        } else {
            let unit = self.restart().scan_token();
            let rest = unit.0.scan_rest();
            (rest.0, unit.1 + rest.1)
        }
    }

    #[via_fn]
    proof fn scan_rest_terminates(self) {
        lemma_scan_token_moves(self.restart());
    }
}

/// The state of a scanner that has scanned all of `source` from its
/// beginning, which holds the tokens of the source, and the lexical errors
/// found in it.
pub open spec fn scanned(source: Seq<char>) -> (ScannerView, Seq<ReportView>) {
    (ScannerView { source, tokens: Seq::empty(), start: 0, current: 0, line: 1 }).scan_rest()
}

/// The tokens of `source` with the end marker appended, on the line where
/// the source ends, and the lexical errors found in the source. This is
/// what a caller has that scans a whole source and closes its tokens for
/// the parser.
pub open spec fn tokenize(source: Seq<char>) -> (Seq<TokenView>, Seq<ReportView>) {
    let (last, reports) = scanned(source);
    (last.tokens.push(last.end_of_file()), reports)
}

/// Scanning a unit keeps the source and, unless the source is exhausted,
/// moves the cursor forward.
pub proof fn lemma_scan_token_moves(state: ScannerView)
    ensures
        state.scan_token().0.source == state.source,
        !state.at_end() ==> state.scan_token().0.current > state.current,
        state.wf() ==> state.scan_token().0.wf(),
{
    let next = state.advance();
    lemma_run_end_from(state.source, next.current, CharClass::Quoted);
    lemma_run_end_from(state.source, next.current + 1, CharClass::Comment);
    lemma_run_end_from(state.source, next.current, CharClass::Alphanumeric);
    lemma_run_end_from(state.source, next.current, CharClass::Digit);
    let whole = run_end(state.source, next.current, CharClass::Digit);
    lemma_run_end_from(state.source, whole + 1, CharClass::Digit);
    let close = run_end(state.source, next.current, CharClass::Quoted);
    if 0 <= next.current <= close <= state.source.len() {
        lemma_newlines_bound(state.source.subrange(next.current, close));
    }
}

/// A string that is not closed is reported once, as "Unterminated string."
/// on the line where the source ends, and yields no token.
pub proof fn lemma_unterminated_string(state: ScannerView)
    requires
        state.wf(),
        run_end(state.source, state.current, CharClass::Quoted) >= state.source.len(),
    ensures
        state.string().0.tokens == state.tokens,
        state.string().0.at_end(),
        state.string().1 == seq![
            ReportView {
                line: state.line + newlines(
                    state.source.subrange(state.current, state.source.len() as int),
                ),
                message: "Unterminated string."@,
            },
        ],
{
    lemma_run_end(state.source, state.current, CharClass::Quoted);
}

/// A double quote that no other follows makes the scanner report one
/// unterminated string and add no token.
pub proof fn lemma_unterminated_string_token(state: ScannerView)
    requires
        state.wf(),
        state.peek() == '"',
        run_end(state.source, state.current + 1, CharClass::Quoted) >= state.source.len(),
    ensures
        state.scan_token().0.tokens == state.tokens,
        state.scan_token().1.len() == 1,
        state.scan_token().1[0].message == "Unterminated string."@,
{
    lemma_unterminated_string(state.advance());
}

/// Turns source text into tokens.
pub struct Scanner {
    /// The source text, followed by one NUL.
    source: Vec<char>,
    tokens: Vec<Token>,
    start: usize,
    current: usize,
    line: usize,
}

impl View for Scanner {
    type V = ScannerView;

    closed spec fn view(&self) -> ScannerView {
        ScannerView {
            source: self.source@.drop_last(),
            tokens: token_views(self.tokens@),
            start: self.start as int,
            current: self.current as int,
            line: self.line as nat,
        }
    }
}

impl Scanner {
    /// The stored text ends with the NUL that stands for the end of input.
    pub closed spec fn terminated(&self) -> bool {
        self.source@.len() > 0 && self.source@.last() == '\0'
    }

    /// The invariant of a scanner.
    pub open spec fn wf(&self) -> bool {
        self.terminated() && self@.wf()
    }

    /// How the stored text relates to the source.
    proof fn lemma_buffer(&self)
        requires
            self.wf(),
        ensures
            self.source@.len() == self@.source.len() + 1,
            self@.source.len() < usize::MAX,
            self.start <= self.current < self.source@.len(),
            self.source@[self@.source.len() as int] == '\0',
            forall|i: int| 0 <= i < self@.source.len() ==> self.source@[i] == self@.source[i],
            forall|i: int|
                0 <= i < self.source@.len() ==> self.source@[i] == char_at(self@.source, i),
            forall|i: int, j: int|
                0 <= i <= j <= self@.source.len() ==> #[trigger] self.source@.subrange(i, j)
                    == self@.source.subrange(i, j),
    {
        assert(self.source.len() == self.source@.len());
    }

    /// A scanner at the beginning of `source`, on line one, with no tokens.
    pub fn new(source: &str) -> (scanner: Self)
        ensures
            scanner.wf(),
            scanner@ == (ScannerView {
                source: source@,
                tokens: Seq::empty(),
                start: 0,
                current: 0,
                line: 1,
            }),
    {
        let mut chars = chars_of(source);
        chars.push('\0');
        let scanner = Scanner { source: chars, tokens: Vec::new(), start: 0, current: 0, line: 1 };
        assert(scanner@.source =~= source@);
        assert(scanner@.tokens =~= Seq::<TokenView>::empty());
        scanner
    }

    /// Reads the next character and moves past it. At the end of the source
    /// it returns NUL and stays where it is.
    pub fn advance(&mut self) -> (c: char)
        requires
            old(self).wf(),
        ensures
            final(self).wf(),
            c == old(self)@.peek(),
            final(self)@ == old(self)@.advance(),
    {
        proof {
            self.lemma_buffer();
        }
        let c = self.source[self.current];
        let end = self.source.len() - 1;
        if self.current < end {
            self.current += 1;
        }
        c
    }

    /// The next character, without moving; NUL at the end of the source.
    pub fn peek(&self) -> (c: char)
        requires
            self.wf(),
        ensures
            c == self@.peek(),
    {
        proof {
            self.lemma_buffer();
        }
        self.source[self.current]
    }

    /// The character after the next, without moving; NUL if there is none.
    pub fn peek_next(&self) -> (c: char)
        requires
            self.wf(),
        ensures
            c == self@.peek_next(),
    {
        proof {
            self.lemma_buffer();
        }
        let end = self.source.len() - 1;
        if self.current >= end {
            '\0'
        } else {
            self.source[self.current + 1]
        }
    }

    /// The line that the cursor is on, counted from one.
    pub fn line(&self) -> (line: usize)
        ensures
            line == self@.line,
    {
        self.line
    }

    /// Whether every character has been read.
    pub fn is_at_end(&self) -> (at_end: bool)
        requires
            self.wf(),
        ensures
            at_end == self@.at_end(),
    {
        proof {
            self.lemma_buffer();
        }
        self.current >= self.source.len() - 1
    }

    /// Reads the next character if it is `expected`, and says whether it
    /// did.
    pub fn match_next(&mut self, expected: char) -> (matched: bool)
        requires
            old(self).wf(),
        ensures
            final(self).wf(),
            matched == (!old(self)@.at_end() && old(self)@.peek() == expected),
            final(self)@ == if matched { old(self)@.advance() } else { old(self)@ },
    {
        if self.is_at_end() {
            return false;
        }
        let c = self.peek();
        if c != expected {
            return false;
        }
        self.advance();
        true
    }

    /// Adds a token of kind `token_type` on the current line. Its literal is
    /// `token` if given, otherwise the text of the unit being scanned, kept
    /// as raw text.
    pub fn add_token(&mut self, token_type: TokenType, token: Option<Literal>)
        requires
            old(self).wf(),
        ensures
            final(self).wf(),
            final(self)@ == old(self)@.with_token(
                token_type,
                match token {
                    Some(literal) => literal@,
                    None => LiteralView::Unknown(old(self)@.lexeme()),
                },
            ),
    {
        proof {
            self.lemma_buffer();
        }
        let literal = match token {
            Some(literal) => literal,
            None => Literal::Unknown(string_of(&self.source, self.start, self.current)),
        };
        let token = Token { token_type, line: self.line, literal };
        self.tokens.push(token);
        assert(token_views(self.tokens@) =~= token_views(old(self).tokens@).push(token@));
    }

    /// Whether `c` is an ASCII decimal digit.
    pub fn is_digit(&self, c: char) -> (digit: bool)
        ensures
            digit == is_digit(c),
    {
        '0' <= c && c <= '9'
    }

    /// Whether `c` is an ASCII letter or the underscore.
    pub fn is_alpha(&self, c: char) -> (alpha: bool)
        ensures
            alpha == is_alpha(c),
    {
        ('a' <= c && c <= 'z') || ('A' <= c && c <= 'Z') || c == '_'
    }

    /// Whether `c` may continue an identifier.
    pub fn is_alphanumeric(&self, c: char) -> (alphanumeric: bool)
        ensures
            alphanumeric == is_alphanumeric(c),
    {
        self.is_alpha(c) || self.is_digit(c)
    }
}

impl Scanner {
    /// Reads on to the end of the run of `class` characters at the cursor.
    fn skip_run(&mut self, class: CharClass)
        requires
            old(self).wf(),
        ensures
            final(self).wf(),
            final(self)@ == old(self)@.at(run_end(old(self)@.source, old(self)@.current, class)),
    {
        while !self.is_at_end() && Self::admits(class, self.peek())
            invariant
                self.wf(),
                self@ == old(self)@.at(self@.current),
                run_end(self@.source, self@.current, class) == run_end(
                    old(self)@.source,
                    old(self)@.current,
                    class,
                ),
            decreases self@.source.len() - self@.current,
        {
            self.advance();
        }
    }

    /// Whether a run of `class` may contain `c`.
    fn admits(class: CharClass, c: char) -> (admitted: bool)
        ensures
            admitted == class.admits(c),
    {
        match class {
            CharClass::Digit => '0' <= c && c <= '9',
            CharClass::Alphanumeric => ('a' <= c && c <= 'z') || ('A' <= c && c <= 'Z') || c == '_'
                || ('0' <= c && c <= '9'),
            CharClass::Comment => c != '\n',
            CharClass::Quoted => c != '"',
        }
    }
}

impl Scanner {
    /// The token kind of the word `chars[from..to]`.
    fn word_type(chars: &Vec<char>, from: usize, to: usize) -> (token_type: TokenType)
        requires
            from <= to <= chars.len(),
        ensures
            token_type == word_type(chars@.subrange(from as int, to as int)),
    {
        if spells(chars, from, to, "and") {
            TokenType::AND
        } else if spells(chars, from, to, "class") {
            TokenType::CLASS
        } else if spells(chars, from, to, "else") {
            TokenType::ELSE
        } else if spells(chars, from, to, "false") {
            TokenType::FALSE
        } else if spells(chars, from, to, "for") {
            TokenType::FOR
        } else if spells(chars, from, to, "fun") {
            TokenType::FUN
        } else if spells(chars, from, to, "if") {
            TokenType::IF
        } else if spells(chars, from, to, "nil") {
            TokenType::NIL
        } else if spells(chars, from, to, "or") {
            TokenType::OR
        } else if spells(chars, from, to, "print") {
            TokenType::PRINT
        } else if spells(chars, from, to, "return") {
            TokenType::RETURN
        } else if spells(chars, from, to, "super") {
            TokenType::SUPER
        } else if spells(chars, from, to, "this") {
            TokenType::THIS
        } else if spells(chars, from, to, "true") {
            TokenType::TRUE
        } else if spells(chars, from, to, "var") {
            TokenType::VAR
        } else if spells(chars, from, to, "while") {
            TokenType::WHILE
        } else {
            TokenType::IDENTIFIER
        }
    }

    /// Scans the rest of an identifier or reserved word whose first
    /// character has been read, and adds its token.
    pub fn identifier(&mut self)
        requires
            old(self).wf(),
        ensures
            final(self).wf(),
            final(self)@ == old(self)@.identifier(),
    {
        self.skip_run(CharClass::Alphanumeric);
        proof {
            self.lemma_buffer();
        }
        let token_type = Self::word_type(&self.source, self.start, self.current);
        let text = string_of(&self.source, self.start, self.current);
        self.add_token(token_type, Some(Literal::Str(text)));
    }

    /// Scans the rest of a numeral whose first digit has been read, and adds
    /// its token.
    pub fn number(&mut self)
        requires
            old(self).wf(),
        ensures
            final(self).wf(),
            final(self)@ == old(self)@.number(),
    {
        self.skip_run(CharClass::Digit);
        if self.peek() == '.' && self.is_digit(self.peek_next()) {
            self.advance();
            self.skip_run(CharClass::Digit);
        }
        proof {
            self.lemma_buffer();
        }
        let text = string_of(&self.source, self.start, self.current);
        self.add_token(TokenType::NUMBER, Some(Literal::Number(text)));
    }

    /// Scans the rest of a string literal whose opening quote has been read.
    /// Adds its token, or reports "Unterminated string." if the source ends
    /// before the closing quote.
    pub fn string(&mut self, reporter: &mut ErrorReporter)
        requires
            old(self).wf(),
            old(self)@.in_string(),
        ensures
            final(self).wf(),
            final(self)@ == old(self)@.string().0,
            final(reporter)@ == old(reporter)@ + old(self)@.string().1,
    {
        let ghost begin = self@.current;
        let ghost close = run_end(self@.source, begin, CharClass::Quoted);
        proof {
            lemma_run_end(self@.source, begin, CharClass::Quoted);
        }
        while self.peek() != '"' && !self.is_at_end()
            invariant
                self.wf(),
                0 <= begin <= self@.current <= close <= self@.source.len(),
                close == run_end(self@.source, self@.current, CharClass::Quoted),
                self@ == (ScannerView {
                    current: self@.current,
                    line: old(self)@.line + newlines(
                        old(self)@.source.subrange(begin, self@.current),
                    ),
                    ..old(self)@
                }),
            decreases self@.source.len() - self@.current,
        {
            let ghost before = self@.current;
            proof {
                self.lemma_buffer();
                lemma_run_end(self@.source, before + 1, CharClass::Quoted);
                lemma_newlines_push(self@.source.subrange(begin, before), self@.peek());
                assert(self@.source.subrange(begin, before).push(self@.peek())
                    =~= self@.source.subrange(begin, before + 1));
            }
            let c = self.advance();
            if c == '\n' {
                self.line += 1;
            }
        }
        if self.is_at_end() {
            reporter.report(self.line, "Unterminated string.");
            return ;
        }
        self.advance();
        proof {
            self.lemma_buffer();
        }
        let value = collapsed(&self.source, self.start + 1, self.current - 1);
        self.add_token(TokenType::STRING, Some(Literal::Str(value)));
    }
}

impl Scanner {
    /// The token kind of a punctuation mark that is a token by itself.
    fn punctuation(c: char) -> (token_type: Option<TokenType>)
        ensures
            token_type == punctuation(c),
    {
        if c == '(' {
            Some(TokenType::LEFT_PAREN)
        } else if c == ')' {
            Some(TokenType::RIGHT_PAREN)
        } else if c == '{' {
            Some(TokenType::LEFT_BRACE)
        } else if c == '}' {
            Some(TokenType::RIGHT_BRACE)
        } else if c == ',' {
            Some(TokenType::COMMA)
        } else if c == '.' {
            Some(TokenType::DOT)
        } else if c == '-' {
            Some(TokenType::MINUS)
        } else if c == '+' {
            Some(TokenType::PLUS)
        } else if c == ';' {
            Some(TokenType::SEMICOLON)
        } else if c == '*' {
            Some(TokenType::STAR)
        } else {
            None
        }
    }

    /// The token kind of the operator that begins with `c`, alone or
    /// followed by an equals sign.
    fn operator(c: char, doubled: bool) -> (token_type: Option<TokenType>)
        ensures
            token_type == operator(c, doubled),
    {
        if c == '!' {
            Some(if doubled { TokenType::BANG_EQUAL } else { TokenType::BANG })
        } else if c == '=' {
            Some(if doubled { TokenType::EQUAL_EQUAL } else { TokenType::EQUAL })
        } else if c == '<' {
            Some(if doubled { TokenType::LESS_EQUAL } else { TokenType::LESS })
        } else if c == '>' {
            Some(if doubled { TokenType::GREATER_EQUAL } else { TokenType::GREATER })
        } else {
            None
        }
    }

    /// Scans the lexical unit at the cursor: adds its token if it is one,
    /// skips it if it is whitespace or a comment, and reports it if it is a
    /// character that begins no token. At the end of the source it does
    /// nothing.
    pub fn scan_token(&mut self, reporter: &mut ErrorReporter)
        requires
            old(self).wf(),
        ensures
            final(self).wf(),
            final(self)@ == old(self)@.scan_token().0,
            final(reporter)@ == old(reporter)@ + old(self)@.scan_token().1,
    {
        proof {
            self.lemma_buffer();
        }
        if self.is_at_end() {
            return ;
        }
        let c = self.advance();
        if let Some(token_type) = Self::punctuation(c) {
            self.add_token(token_type, Some(Literal::Str(single(c))));
        } else if let Some(_) = Self::operator(c, false) {
            let doubled = self.match_next('=');
            proof {
                self.lemma_buffer();
            }
            let text = string_of(&self.source, self.start, self.current);
            match Self::operator(c, doubled) {
                Some(token_type) => self.add_token(token_type, Some(Literal::Str(text))),
                None => {},
            }
        } else if c == '/' {
            if self.match_next('/') {
                self.skip_run(CharClass::Comment);
            } else {
                self.add_token(TokenType::SLASH, None);
            }
        } else if c == '"' {
            self.string(reporter);
        } else if c == ' ' || c == '\r' || c == '\t' {
            self.start = self.current;
        } else if c == '\n' {
            self.line += 1;
            self.start = self.current;
        } else if self.is_digit(c) {
            self.number();
        } else if self.is_alpha(c) {
            self.identifier();
        } else {
            let mut message = "Unexpected character: '".to_owned();
            message.push(c);
            message.push('\'');
            reporter.report(self.line, message.as_str());
        }
    }

    /// Scans every lexical unit from the cursor to the end of the source and
    /// hands over all the tokens recognised so far, and nothing more: no end
    /// marker is added. The scanner is left at the end of the source with
    /// no tokens; lexical errors go to `reporter` and do not stop the scan.
    pub fn scan_tokens(&mut self, reporter: &mut ErrorReporter) -> (tokens: Vec<Token>)
        requires
            old(self).wf(),
        ensures
            final(self).wf(),
            token_views(tokens@) == old(self)@.scan_rest().0.tokens,
            final(self)@ == (ScannerView {
                tokens: Seq::empty(),
                ..old(self)@.scan_rest().0.restart()
            }),
            final(reporter)@ == old(reporter)@ + old(self)@.scan_rest().1,
    {
        while !self.is_at_end()
            invariant
                self.wf(),
                self@.scan_rest().0 == old(self)@.scan_rest().0,
                reporter@ + self@.scan_rest().1 == old(reporter)@ + old(self)@.scan_rest().1,
            decreases self@.source.len() - self@.current,
        {
            proof {
                lemma_scan_token_moves(self@.restart());
            }
            self.start = self.current;
            self.scan_token(reporter);
        }
        self.start = self.current;
        let mut tokens: Vec<Token> = Vec::new();
        std::mem::swap(&mut tokens, &mut self.tokens);
        assert(self@.tokens =~= Seq::<TokenView>::empty());
        tokens
    }
}

} // verus!
