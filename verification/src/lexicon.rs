//! The lexical grammar, stated over sequences of characters.

use vstd::prelude::*;
use crate::token_types::TokenType;

verus! {

/// An ASCII decimal digit.
pub open spec fn is_digit(c: char) -> bool {
    '0' <= c && c <= '9'
}

/// An ASCII letter or the underscore.
pub open spec fn is_alpha(c: char) -> bool {
    ('a' <= c && c <= 'z') || ('A' <= c && c <= 'Z') || c == '_'
}

/// A character that may continue an identifier.
pub open spec fn is_alphanumeric(c: char) -> bool {
    is_alpha(c) || is_digit(c)
}

/// A character with the Unicode property `White_Space`.
pub open spec fn is_whitespace(c: char) -> bool {
    let code = c as u32;
    ||| 0x09 <= code <= 0x0D
    ||| code == 0x20
    ||| code == 0x85
    ||| code == 0xA0
    ||| code == 0x1680
    ||| 0x2000 <= code <= 0x200A
    ||| code == 0x2028
    ||| code == 0x2029
    ||| code == 0x202F
    ||| code == 0x205F
    ||| code == 0x3000
}

/// The character at `at`, or NUL past either end of `source`.
pub open spec fn char_at(source: Seq<char>, at: int) -> char {
    if 0 <= at < source.len() {
        source[at]
    } else {
        '\0'
    }
}

/// The kinds of character run the scanner consumes greedily.
#[derive(Debug, Clone, Copy, PartialEq, Eq, Structural)]
pub enum CharClass {
    /// Decimal digits.
    Digit,
    /// Letters, digits and underscores.
    Alphanumeric,
    /// Everything up to the end of the line.
    Comment,
    /// Everything up to the next double quote.
    Quoted,
}

impl CharClass {
    /// Whether a run of this class may contain `c`.
    pub open spec fn admits(self, c: char) -> bool {
        match self {
            CharClass::Digit => is_digit(c),
            CharClass::Alphanumeric => is_alphanumeric(c),
            CharClass::Comment => c != '\n',
            CharClass::Quoted => c != '"',
        }
    }
}

/// The end of the longest run of `class` characters that begins at `from`:
/// the first position at or after `from` that holds a character outside the
/// class, or the end of `source`.
pub open spec fn run_end(source: Seq<char>, from: int, class: CharClass) -> int
    decreases source.len() - from,
{
    if 0 <= from < source.len() && class.admits(source[from]) {
        run_end(source, from + 1, class)
    } else {
        from
    }
}

/// The end of the numeral whose first digits begin at `from`: a run of
/// digits, then a point and another run of digits if a digit follows the
/// point. A point that no digit follows is not part of the numeral.
pub open spec fn number_end(source: Seq<char>, from: int) -> int {
    let whole = run_end(source, from, CharClass::Digit);
    if char_at(source, whole) == '.' && is_digit(char_at(source, whole + 1)) {
        run_end(source, whole + 1, CharClass::Digit)
    } else {
        whole
    }
}

/// The number of line feeds in `text`.
pub open spec fn newlines(text: Seq<char>) -> nat
    decreases text.len(),
{
    if text.len() == 0 {
        0
    } else {
        newlines(text.drop_last()) + if text.last() == '\n' { 1nat } else { 0nat }
    }
}

/// The token kind of a punctuation mark that is a token by itself.
pub open spec fn punctuation(c: char) -> Option<TokenType> {
    if c == '(' {
        Some(TokenType::LEFT_PAREN)
    } else if c == ')' {
        Some(TokenType::RIGHT_PAREN)
    } else if c == '{' {
        Some(TokenType::LEFT_BRACE)
    } else if c == '}' {
        Some(TokenType::RIGHT_BRACE)
    } else if c == ',' {
        Some(TokenType::COMMA)
    } else if c == '.' {
        Some(TokenType::DOT)
    } else if c == '-' {
        Some(TokenType::MINUS)
    } else if c == '+' {
        Some(TokenType::PLUS)
    } else if c == ';' {
        Some(TokenType::SEMICOLON)
    } else if c == '*' {
        Some(TokenType::STAR)
    } else {
        None
    }
}

/// The token kind of an operator that begins with `c`, alone or, if
/// `doubled`, followed by an equals sign.
pub open spec fn operator(c: char, doubled: bool) -> Option<TokenType> {
    if c == '!' {
        Some(if doubled { TokenType::BANG_EQUAL } else { TokenType::BANG })
    } else if c == '=' {
        Some(if doubled { TokenType::EQUAL_EQUAL } else { TokenType::EQUAL })
    } else if c == '<' {
        Some(if doubled { TokenType::LESS_EQUAL } else { TokenType::LESS })
    } else if c == '>' {
        Some(if doubled { TokenType::GREATER_EQUAL } else { TokenType::GREATER })
    } else {
        None
    }
}

/// The token kind of a reserved word. Reserved words are case-sensitive.
pub open spec fn keyword(text: Seq<char>) -> Option<TokenType> {
    if text == "and"@ {
        Some(TokenType::AND)
    } else if text == "class"@ {
        Some(TokenType::CLASS)
    } else if text == "else"@ {
        Some(TokenType::ELSE)
    } else if text == "false"@ {
        Some(TokenType::FALSE)
    } else if text == "for"@ {
        Some(TokenType::FOR)
    } else if text == "fun"@ {
        Some(TokenType::FUN)
    } else if text == "if"@ {
        Some(TokenType::IF)
    } else if text == "nil"@ {
        Some(TokenType::NIL)
    } else if text == "or"@ {
        Some(TokenType::OR)
    } else if text == "print"@ {
        Some(TokenType::PRINT)
    } else if text == "return"@ {
        Some(TokenType::RETURN)
    } else if text == "super"@ {
        Some(TokenType::SUPER)
    } else if text == "this"@ {
        Some(TokenType::THIS)
    } else if text == "true"@ {
        Some(TokenType::TRUE)
    } else if text == "var"@ {
        Some(TokenType::VAR)
    } else if text == "while"@ {
        Some(TokenType::WHILE)
    } else {
        None
    }
}

/// The token kind of a word: its own kind if it is reserved, otherwise
/// `IDENTIFIER`.
pub open spec fn word_type(text: Seq<char>) -> TokenType {
    match keyword(text) {
        Some(kind) => kind,
        None => TokenType::IDENTIFIER,
    }
}

/// The state of collapsing after reading `text`: the output so far, and
/// whether whitespace has been seen since the last character that was put
/// out.
pub open spec fn collapsing(text: Seq<char>) -> (Seq<char>, bool)
    decreases text.len(),
{
    if text.len() == 0 {
        (Seq::empty(), false)
    } else {
        let (out, gap) = collapsing(text.drop_last());
        let c = text.last();
        if c == '\\' {
            (out, gap)
        } else if is_whitespace(c) {
            (out, true)
        } else if gap && out.len() > 0 {
            (out.push(' ').push(c), false)
        } else {
            (out.push(c), false)
        }
    }
}

/// The value of a string literal whose content is `text`: backslashes are
/// dropped, and what remains is split at whitespace into words that are
/// joined again by single spaces.
pub open spec fn collapse(text: Seq<char>) -> Seq<char> {
    collapsing(text).0
}

/// The message reported for a character that begins no token.
pub open spec fn unexpected_character(c: char) -> Seq<char> {
    "Unexpected character: '"@.push(c).push('\'')
}

/// `run_end` lies between `from` and the end of the source, everything
/// before it belongs to the class, and the character at it does not.
pub proof fn lemma_run_end(source: Seq<char>, from: int, class: CharClass)
    requires
        0 <= from <= source.len(),
    ensures
        from <= run_end(source, from, class) <= source.len(),
        forall|i: int|
            from <= i < run_end(source, from, class) ==> class.admits(#[trigger] source[i]),
        run_end(source, from, class) < source.len() ==> !class.admits(
            source[run_end(source, from, class)],
        ),
    decreases source.len() - from,
{
    if from < source.len() && class.admits(source[from]) {
        lemma_run_end(source, from + 1, class);
    }
}

/// A run never ends before it begins, nor past the end of the source.
pub proof fn lemma_run_end_from(source: Seq<char>, from: int, class: CharClass)
    ensures
        from <= run_end(source, from, class),
        0 <= from <= source.len() ==> run_end(source, from, class) <= source.len(),
    decreases source.len() - from,
{
    if 0 <= from < source.len() && class.admits(source[from]) {
        lemma_run_end_from(source, from + 1, class);
    }
}

/// One more character adds one line feed if it is one, and none otherwise.
pub proof fn lemma_newlines_push(text: Seq<char>, c: char)
    ensures
        newlines(text.push(c)) == newlines(text) + if c == '\n' { 1nat } else { 0nat },
{
    assert(text.push(c).drop_last() =~= text);
}

/// A text holds no more line feeds than characters.
pub proof fn lemma_newlines_bound(text: Seq<char>)
    ensures
        newlines(text) <= text.len(),
    decreases text.len(),
{
    if text.len() > 0 {
        lemma_newlines_bound(text.drop_last());
    }
}

/// The characters of `text` that are neither backslashes nor whitespace, in
/// order.
pub open spec fn solid(text: Seq<char>) -> Seq<char>
    decreases text.len(),
{
    if text.len() == 0 {
        Seq::empty()
    } else if text.last() == '\\' || is_whitespace(text.last()) {
        solid(text.drop_last())
    } else {
        solid(text.drop_last()).push(text.last())
    }
}

/// Whether `text` consists of words that single spaces separate: it holds
/// no backslash and no whitespace but the space, no space at either end,
/// and no two spaces in a row.
pub open spec fn spaced(text: Seq<char>) -> bool {
    &&& forall|i: int|
        0 <= i < text.len() ==> (#[trigger] text[i]) != '\\' && (is_whitespace(text[i])
            ==> text[i] == ' ')
    &&& text.len() > 0 ==> text[0] != ' ' && text.last() != ' '
    &&& forall|i: int|
        0 <= i < text.len() - 1 ==> !((#[trigger] text[i]) == ' ' && text[i + 1] == ' ')
}

/// One more character that is neither a backslash nor whitespace is kept.
pub proof fn lemma_solid_push(text: Seq<char>, c: char)
    ensures
        solid(text.push(c)) == if c == '\\' || is_whitespace(c) {
            solid(text)
        } else {
            solid(text).push(c)
        },
{
    assert(text.push(c).drop_last() =~= text);
}

/// The value of a string literal consists of words that single spaces
/// separate, and its other characters are those of the content, without
/// the backslashes and the whitespace.
pub proof fn lemma_collapse(text: Seq<char>)
    ensures
        spaced(collapse(text)),
        solid(collapse(text)) == solid(text),
    decreases text.len(),
{
    if text.len() > 0 {
        let before = collapsing(text.drop_last());
        let c = text.last();
        lemma_collapse(text.drop_last());
        if c == '\\' || is_whitespace(c) {
        } else if before.1 && before.0.len() > 0 {
            lemma_solid_push(before.0, ' ');
            lemma_solid_push(before.0.push(' '), c);
        } else {
            lemma_solid_push(before.0, c);
        }
    }
}

} // verus!
