//! The mathematical model of a scan.
//!
//! `scan_from` says, as a pure function of the source text, which tokens and
//! which errors a scan produces from a given position and line onward;
//! `scan_result` is the full scan. The executable scanner's contracts state
//! that it computes exactly this function.

use crate::tokenizer::TokenType;
use vstd::prelude::*;

verus! {

/// The mathematical image of one emitted token: its kind, the exact source
/// text it was read from, its optional literal, and the 1-based line on
/// which it started.
#[verifier::ext_equal]
pub ghost struct SpecToken {
    pub token_type: TokenType,
    pub lexeme: Seq<char>,
    pub literal: Option<Seq<char>>,
    pub line: int,
}

/// The mathematical image of one lexical error: the 1-based line on which
/// the offending character stood, and the message reported for it.
#[verifier::ext_equal]
pub ghost struct SpecError {
    pub line: int,
    pub message: Seq<char>,
}

/// A token without a literal.
pub open spec fn plain_token(token_type: TokenType, lexeme: Seq<char>, line: int) -> SpecToken {
    SpecToken { token_type, lexeme, literal: None, line }
}

/// The end-of-input token: empty lexeme, no literal.
pub open spec fn eof_token(line: int) -> SpecToken {
    plain_token(TokenType::Eof, Seq::empty(), line)
}

/// The kind of a single-character punctuation token, or None when `c`
/// begins no such token.
pub open spec fn single_char_kind(c: char) -> Option<TokenType> {
    if c == '(' {
        Some(TokenType::LeftParen)
    } else if c == ')' {
        Some(TokenType::RightParen)
    } else if c == '{' {
        Some(TokenType::LeftBrace)
    } else if c == '}' {
        Some(TokenType::RightBrace)
    } else if c == ',' {
        Some(TokenType::Comma)
    } else if c == '.' {
        Some(TokenType::Dot)
    } else if c == '-' {
        Some(TokenType::Minus)
    } else if c == '+' {
        Some(TokenType::Plus)
    } else if c == ';' {
        Some(TokenType::Semicolon)
    } else if c == '*' {
        Some(TokenType::Star)
    } else {
        None
    }
}

/// True of the four characters that may begin a two-character operator,
/// resolved by one character of lookahead.
pub open spec fn pair_start(c: char) -> bool {
    c == '=' || c == '!' || c == '<' || c == '>'
}

/// The kind emitted when a pair-start character stands alone.
pub open spec fn pair_alone_kind(c: char) -> TokenType {
    if c == '=' {
        TokenType::Equal
    } else if c == '!' {
        TokenType::Bang
    } else if c == '<' {
        TokenType::Less
    } else {
        TokenType::Greater
    }
}

/// The kind emitted when a pair-start character is followed by `=`.
pub open spec fn pair_equal_kind(c: char) -> TokenType {
    if c == '=' {
        TokenType::EqualEqual
    } else if c == '!' {
        TokenType::BangEqual
    } else if c == '<' {
        TokenType::LessEqual
    } else {
        TokenType::GreaterEqual
    }
}

/// Whitespace produces no token and no error; a newline additionally
/// advances the line counter.
pub open spec fn is_skipped(c: char) -> bool {
    c == ' ' || c == '\t' || c == '\r' || c == '\n'
}

/// The message recorded for an unrecognized character.
pub open spec fn unexpected_message(c: char) -> Seq<char> {
    "Unexpected character: "@ + seq![c]
}

/// The tokens and errors produced by scanning `s` from position `i` onward
/// with the line counter at `line`. Each step consumes one character — two
/// for a matched two-character operator — and emits at most one token or
/// one error; the token list always ends with the end-of-input token.
pub open spec fn scan_from(s: Seq<char>, i: int, line: int) -> (Seq<SpecToken>, Seq<SpecError>)
    decreases s.len() - i,
{
    if i < 0 || i >= s.len() {
        (seq![eof_token(line)], Seq::empty())
    } else {
        let c = s[i];
        if c == '\n' {
            scan_from(s, i + 1, line + 1)
        } else if is_skipped(c) {
            scan_from(s, i + 1, line)
        } else if single_char_kind(c) is Some {
            let rest = scan_from(s, i + 1, line);
            (seq![plain_token(single_char_kind(c)->Some_0, seq![c], line)] + rest.0, rest.1)
        } else if pair_start(c) {
            if i + 1 < s.len() && s[i + 1] == '=' {
                let rest = scan_from(s, i + 2, line);
                (seq![plain_token(pair_equal_kind(c), seq![c, '='], line)] + rest.0, rest.1)
            } else {
                let rest = scan_from(s, i + 1, line);
                (seq![plain_token(pair_alone_kind(c), seq![c], line)] + rest.0, rest.1)
            }
        } else {
            let rest = scan_from(s, i + 1, line);
            (rest.0, seq![SpecError { line, message: unexpected_message(c) }] + rest.1)
        }
    }
}

/// The full scan of a source text: tokens and errors from the first
/// character, with the line counter starting at 1.
pub open spec fn scan_result(s: Seq<char>) -> (Seq<SpecToken>, Seq<SpecError>) {
    scan_from(s, 0, 1)
}

/// The upper-snake-case name under which a token's kind is rendered.
/// `Unrecognized` never reaches the token list and has no rendered name.
pub open spec fn kind_name(t: TokenType) -> Seq<char> {
    match t {
        TokenType::LeftParen => "LEFT_PAREN"@,
        TokenType::RightParen => "RIGHT_PAREN"@,
        TokenType::LeftBrace => "LEFT_BRACE"@,
        TokenType::RightBrace => "RIGHT_BRACE"@,
        TokenType::Comma => "COMMA"@,
        TokenType::Dot => "DOT"@,
        TokenType::Minus => "MINUS"@,
        TokenType::Plus => "PLUS"@,
        TokenType::Semicolon => "SEMICOLON"@,
        TokenType::Star => "STAR"@,
        TokenType::Equal => "EQUAL"@,
        TokenType::EqualEqual => "EQUAL_EQUAL"@,
        TokenType::Bang => "BANG"@,
        TokenType::BangEqual => "BANG_EQUAL"@,
        TokenType::Less => "LESS"@,
        TokenType::LessEqual => "LESS_EQUAL"@,
        TokenType::Greater => "GREATER"@,
        TokenType::GreaterEqual => "GREATER_EQUAL"@,
        TokenType::Eof => "EOF"@,
        TokenType::Unrecognized(_) => Seq::empty(),
    }
}

/// The literal field as rendered: the decoded value when present, the
/// word `null` otherwise.
pub open spec fn literal_text(l: Option<Seq<char>>) -> Seq<char> {
    match l {
        None => "null"@,
        Some(v) => v,
    }
}

/// One line of the token report: kind name, lexeme and literal separated
/// by single spaces. The end-of-input token renders with an empty lexeme
/// field between the two spaces.
pub open spec fn token_line(t: SpecToken) -> Seq<char> {
    kind_name(t.token_type) + " "@ + t.lexeme + " "@ + literal_text(t.literal)
}

} // verus!
