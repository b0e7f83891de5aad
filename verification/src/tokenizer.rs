//! The executable scanner.
//!
//! `Scanner` makes one left-to-right pass over an immutable source text,
//! holding two cursor offsets into it, and appends to a token list and an
//! error list. Its contracts state that the pass computes exactly
//! `model::scan_result` of the source.

use crate::model::{
    eof_token, kind_name, plain_token, scan_from, scan_result, token_line, unexpected_message,
    SpecError, SpecToken,
};
use vstd::prelude::*;
use vstd::string::StrSliceExecFns;
use vstd::string::StringExecFns;

verus! {

/// The kind of a scanned token.
#[derive(Clone, Copy, Debug, PartialEq, Eq, Structural)]
pub enum TokenType {
    /// `(`
    LeftParen,
    /// `)`
    RightParen,
    /// `{`
    LeftBrace,
    /// `}`
    RightBrace,
    /// `,`
    Comma,
    /// `.`
    Dot,
    /// `-`
    Minus,
    /// `+`
    Plus,
    /// `;`
    Semicolon,
    /// `*`
    Star,
    /// `=`
    Equal,
    /// `==`
    EqualEqual,
    /// `!`
    Bang,
    /// `!=`
    BangEqual,
    /// `<`
    Less,
    /// `<=`
    LessEqual,
    /// `>`
    Greater,
    /// `>=`
    GreaterEqual,
    /// End of input.
    Eof,
    /// A character outside the recognized set, carried for error
    /// reporting. The scanner never emits a token of this kind: it turns
    /// the classification into a `LoxError` and drops it.
    Unrecognized(char),
}

/// One scanned token: its kind, the exact source text it was read from,
/// an optional decoded literal, and the 1-based line where it started.
/// Created once during scanning and never mutated.
pub struct Token {
    pub token_type: TokenType,
    pub lexeme: String,
    pub literal: Option<String>,
    pub line: usize,
}

impl View for Token {
    type V = SpecToken;

    open spec fn view(&self) -> SpecToken {
        SpecToken {
            token_type: self.token_type,
            lexeme: self.lexeme@,
            literal: self.literal.deep_view(),
            line: self.line as int,
        }
    }
}

impl Token {
    /// Builds a token from its parts.
    pub fn new(token_type: TokenType, lexeme: String, literal: Option<String>, line: usize) -> (t:
        Token)
        ensures
            t@ == (SpecToken {
                token_type,
                lexeme: lexeme@,
                literal: literal.deep_view(),
                line: line as int,
            }),
    {
        Token { token_type, lexeme, literal, line }
    }

    /// The upper-snake-case name of this token's kind.
    pub fn kind_text(&self) -> (r: String)
        requires
            !(self.token_type is Unrecognized),
        ensures
            r@ == kind_name(self.token_type),
    {
        match self.token_type {
            TokenType::LeftParen => String::from_str("LEFT_PAREN"),
            TokenType::RightParen => String::from_str("RIGHT_PAREN"),
            TokenType::LeftBrace => String::from_str("LEFT_BRACE"),
            TokenType::RightBrace => String::from_str("RIGHT_BRACE"),
            TokenType::Comma => String::from_str("COMMA"),
            TokenType::Dot => String::from_str("DOT"),
            TokenType::Minus => String::from_str("MINUS"),
            TokenType::Plus => String::from_str("PLUS"),
            TokenType::Semicolon => String::from_str("SEMICOLON"),
            TokenType::Star => String::from_str("STAR"),
            TokenType::Equal => String::from_str("EQUAL"),
            TokenType::EqualEqual => String::from_str("EQUAL_EQUAL"),
            TokenType::Bang => String::from_str("BANG"),
            TokenType::BangEqual => String::from_str("BANG_EQUAL"),
            TokenType::Less => String::from_str("LESS"),
            TokenType::LessEqual => String::from_str("LESS_EQUAL"),
            TokenType::Greater => String::from_str("GREATER"),
            TokenType::GreaterEqual => String::from_str("GREATER_EQUAL"),
            TokenType::Eof => String::from_str("EOF"),
            TokenType::Unrecognized(_) => vstd::pervasive::unreached(),
        }
    }

    /// Renders the token as one report line: `<KIND> <lexeme> <literal>`,
    /// with the word `null` standing in for an absent literal. The
    /// end-of-input token renders as `EOF  null`.
    pub fn to_string(&self) -> (r: String)
        requires
            !(self.token_type is Unrecognized),
        ensures
            r@ == token_line(self@),
    {
        let mut r = self.kind_text();
        r.append(" ");
        r.append(self.lexeme.as_str());
        r.append(" ");
        match &self.literal {
            None => r.append("null"),
            Some(l) => r.append(l.as_str()),
        }
        r
    }
}

/// One lexical error: the 1-based line of the offending character and a
/// human-readable message. Accumulated during a scan, never mutated.
pub struct LoxError {
    pub line: usize,
    pub message: String,
}

impl View for LoxError {
    type V = SpecError;

    open spec fn view(&self) -> SpecError {
        SpecError { line: self.line as int, message: self.message@ }
    }
}

impl LoxError {
    /// Builds an error record from its parts.
    pub fn new(line: usize, message: String) -> (e: LoxError)
        ensures
            e@ == (SpecError { line: line as int, message: message@ }),
    {
        LoxError { line, message }
    }
}

/// One scan over one source text: the cursor state, the token list built
/// so far, and the errors recorded so far. `errors` stays `None` until the
/// first error; its presence alone signals the error state to the caller.
pub struct Scanner {
    pub source: String,
    pub tokens: Vec<Token>,
    pub start: usize,
    pub current: usize,
    pub line: usize,
    pub errors: Option<Vec<LoxError>>,
}

impl Scanner {
    /// The cursor invariant: the lexeme start never passes the cursor, the
    /// cursor never passes the end of the source, and the line counter is
    /// 1-based and bounded by the characters consumed. The length bound
    /// keeps the counters clear of `usize` overflow.
    pub open spec fn wf(&self) -> bool {
        &&& self.start <= self.current <= self.source@.len()
        &&& self.source@.len() < usize::MAX
        &&& 1 <= self.line <= self.current + 1
    }

    /// The state `new` establishes: nothing consumed, nothing emitted.
    pub open spec fn fresh(&self) -> bool {
        &&& self.start == 0
        &&& self.current == 0
        &&& self.line == 1
        &&& self.tokens@.len() == 0
        &&& self.errors is None
    }

    /// The tokens emitted so far, as their mathematical images.
    pub open spec fn tokens_view(&self) -> Seq<SpecToken> {
        self.tokens@.map_values(|t: Token| t@)
    }

    /// The errors recorded so far, as their mathematical images; empty
    /// while `errors` is still `None`.
    pub open spec fn errors_view(&self) -> Seq<SpecError> {
        match self.errors {
            None => Seq::empty(),
            Some(v) => v@.map_values(|e: LoxError| e@),
        }
    }

    /// A scanner over `source`, ready for one scan. The character count
    /// must leave room for the 1-based counters.
    pub fn new(source: String) -> (s: Scanner)
        requires
            source@.len() < usize::MAX,
        ensures
            s.wf(),
            s.fresh(),
            s.source@ == source@,
    {
        Scanner { source, tokens: Vec::new(), start: 0, current: 0, line: 1, errors: None }
    }

    /// True iff at least one lexical error has been recorded; callable at
    /// any time, in particular before a scan, where it returns false.
    pub fn has_errors(&self) -> (b: bool)
        ensures
            b == (self.errors is Some),
    {
        self.errors.is_some()
    }

    /// Read-only view of the token list.
    pub fn tokens(&self) -> (r: &Vec<Token>)
        ensures
            *r == self.tokens,
    {
        &self.tokens
    }

    /// Read-only view of the error collection.
    pub fn errors(&self) -> (r: &Option<Vec<LoxError>>)
        ensures
            *r == self.errors,
    {
        &self.errors
    }

    /// True iff the cursor has consumed the whole source.
    fn is_at_end(&self) -> (b: bool)
        ensures
            b == (self.current >= self.source@.len()),
    {
        self.current >= self.source.as_str().unicode_len()
    }

    /// Moves the cursor past one character.
    fn advance(&mut self)
        requires
            old(self).wf(),
            old(self).current < old(self).source@.len(),
        ensures
            final(self).current == old(self).current + 1,
            final(self).source == old(self).source,
            final(self).tokens == old(self).tokens,
            final(self).errors == old(self).errors,
            final(self).start == old(self).start,
            final(self).line == old(self).line,
    {
        self.current = self.current + 1;
    }

    /// The first character of the lexeme under construction.
    fn current_char(&self) -> (c: char)
        requires
            self.start < self.source@.len(),
        ensures
            c == self.source@[self.start as int],
    {
        self.source.as_str().get_char(self.start)
    }

    /// Consumes the next character if and only if it equals `expected`;
    /// the lookahead leaves the cursor alone on a mismatch.
    fn matches_next(&mut self, expected: char) -> (b: bool)
        requires
            old(self).wf(),
        ensures
            b == (old(self).current < old(self).source@.len()
                && old(self).source@[old(self).current as int] == expected),
            b ==> final(self).current == old(self).current + 1,
            !b ==> final(self).current == old(self).current,
            final(self).source == old(self).source,
            final(self).tokens == old(self).tokens,
            final(self).errors == old(self).errors,
            final(self).start == old(self).start,
            final(self).line == old(self).line,
            final(self).wf(),
    {
        if self.is_at_end() {
            return false;
        }
        let next_char = self.source.as_str().get_char(self.current);
        if next_char == expected {
            self.current = self.current + 1;
            true
        } else {
            false
        }
    }

    /// Appends a token of the given kind whose lexeme is the source text
    /// between `start` and `current`, at the current line.
    fn add_token(&mut self, token_type: TokenType, literal: Option<String>)
        requires
            old(self).wf(),
        ensures
            final(self).tokens_view() == old(self).tokens_view().push(
                SpecToken {
                    token_type,
                    lexeme: old(self).source@.subrange(
                        old(self).start as int,
                        old(self).current as int,
                    ),
                    literal: literal.deep_view(),
                    line: old(self).line as int,
                },
            ),
            final(self).source == old(self).source,
            final(self).errors == old(self).errors,
            final(self).start == old(self).start,
            final(self).current == old(self).current,
            final(self).line == old(self).line,
            final(self).wf(),
    {
        let text = self.source.as_str().substring_char(self.start, self.current);
        let lexeme = String::from_str(text);
        let token = Token::new(token_type, lexeme, literal, self.line);
        let ghost tok_view = token@;
        self.tokens.push(token);
        proof {
            assert(self.tokens_view() =~= old(self).tokens_view().push(tok_view));
        }
    }

    /// Consumes one character — two for a matched two-character operator —
    /// and classifies it: `Some(kind)` for a token or for an unrecognized
    /// character, `None` for skipped whitespace. The returned
    /// classification and the cursor movement agree with one step of
    /// `model::scan_from` at the old cursor position.
    fn scan_token(&mut self) -> (t: Option<TokenType>)
        requires
            old(self).wf(),
            old(self).start == old(self).current,
            old(self).current < old(self).source@.len(),
        ensures
            final(self).wf(),
            final(self).source == old(self).source,
            final(self).tokens == old(self).tokens,
            final(self).errors == old(self).errors,
            final(self).start == old(self).start,
            old(self).current < final(self).current <= old(self).source@.len(),
            ({
                let s = old(self).source@;
                let i = old(self).current as int;
                let l = old(self).line as int;
                let j = final(self).current as int;
                let full = scan_from(s, i, l);
                let rest = scan_from(s, j, final(self).line as int);
                match t {
                    None => full == rest,
                    Some(TokenType::Unrecognized(c)) => {
                        &&& c == s[i]
                        &&& j == i + 1
                        &&& final(self).line == l
                        &&& full.0 == rest.0
                        &&& full.1 == seq![SpecError { line: l, message: unexpected_message(c) }]
                            + rest.1
                    },
                    Some(kind) => {
                        &&& !(kind is Unrecognized)
                        &&& final(self).line == l
                        &&& full.0 == seq![plain_token(kind, s.subrange(i, j), l)] + rest.0
                        &&& full.1 == rest.1
                    },
                }
            }),
    {
        self.advance();
        let c = self.current_char();
        let t: Option<TokenType>;
        if c == '\n' {
            self.line = self.line + 1;
            t = None;
        } else if c == ' ' || c == '\t' || c == '\r' {
            t = None;
        } else if c == '(' {
            t = Some(TokenType::LeftParen);
        } else if c == ')' {
            t = Some(TokenType::RightParen);
        } else if c == '{' {
            t = Some(TokenType::LeftBrace);
        } else if c == '}' {
            t = Some(TokenType::RightBrace);
        } else if c == ',' {
            t = Some(TokenType::Comma);
        } else if c == '.' {
            t = Some(TokenType::Dot);
        } else if c == '-' {
            t = Some(TokenType::Minus);
        } else if c == '+' {
            t = Some(TokenType::Plus);
        } else if c == ';' {
            t = Some(TokenType::Semicolon);
        } else if c == '*' {
            t = Some(TokenType::Star);
        } else if c == '=' {
            t = if self.matches_next('=') {
                Some(TokenType::EqualEqual)
            } else {
                Some(TokenType::Equal)
            };
        } else if c == '!' {
            t = if self.matches_next('=') {
                Some(TokenType::BangEqual)
            } else {
                Some(TokenType::Bang)
            };
        } else if c == '<' {
            t = if self.matches_next('=') {
                Some(TokenType::LessEqual)
            } else {
                Some(TokenType::Less)
            };
        } else if c == '>' {
            t = if self.matches_next('=') {
                Some(TokenType::GreaterEqual)
            } else {
                Some(TokenType::Greater)
            };
        } else {
            t = Some(TokenType::Unrecognized(c));
        }
        proof {
            let s = old(self).source@;
            let i = old(self).current as int;
            if self.current == old(self).current + 1 {
                assert(s.subrange(i, i + 1) =~= seq![s[i]]);
            } else {
                assert(s.subrange(i, i + 2) =~= seq![s[i], s[i + 1]]);
            }
        }
        t
    }

    /// The message `Unexpected character: <c>` for the one-character
    /// lexeme between `start` and `current`.
    fn unexpected_text(&self) -> (r: String)
        requires
            self.wf(),
            self.current == self.start + 1,
        ensures
            r@ == unexpected_message(self.source@[self.start as int]),
    {
        let prefix = String::from_str("Unexpected character: ");
        let offending = self.source.as_str().substring_char(self.start, self.current);
        proof {
            assert(self.source@.subrange(self.start as int, self.start as int + 1) =~= seq![
                self.source@[self.start as int],
            ]);
        }
        prefix.concat(offending)
    }

    /// Performs the full scan, exactly once per instance: fills the token
    /// list with the tokens of the source, ending with the end-of-input
    /// token, and records one error per unrecognized character, in source
    /// order. The result is `model::scan_result` of the source text, and
    /// the error collection comes into being exactly when at least one
    /// error occurred.
    pub fn scan_tokens(&mut self)
        requires
            old(self).wf(),
            old(self).fresh(),
        ensures
            final(self).wf(),
            final(self).source@ == old(self).source@,
            final(self).tokens_view() == scan_result(old(self).source@).0,
            final(self).errors_view() == scan_result(old(self).source@).1,
            (final(self).errors is Some) == (scan_result(old(self).source@).1.len() > 0),
    {
        let ghost src = old(self).source@;
        let mut errors: Vec<LoxError> = Vec::new();
        proof {
            assert(self.tokens_view() =~= Seq::<SpecToken>::empty());
            assert(Seq::<SpecToken>::empty() + scan_from(src, 0, 1).0 =~= scan_from(src, 0, 1).0);
            assert(errors@.map_values(|e: LoxError| e@) =~= Seq::<SpecError>::empty());
            assert(Seq::<SpecError>::empty() + scan_from(src, 0, 1).1 =~= scan_from(src, 0, 1).1);
        }
        while !self.is_at_end()
            invariant
                self.wf(),
                self.source@ == src,
                self.errors is None,
                self.tokens_view() + scan_from(src, self.current as int, self.line as int).0
                    == scan_result(src).0,
                errors@.map_values(|e: LoxError| e@) + scan_from(
                    src,
                    self.current as int,
                    self.line as int,
                ).1 == scan_result(src).1,
            decreases src.len() - self.current,
        {
            self.start = self.current;
            let ghost pre = *self;
            let t = self.scan_token();
            match t {
                None => {},
                Some(TokenType::Unrecognized(c)) => {
                    let message = self.unexpected_text();
                    let error = LoxError::new(self.line, message);
                    let ghost e = error@;
                    let ghost errs_before = errors@.map_values(|x: LoxError| x@);
                    errors.push(error);
                    proof {
                        let rest = scan_from(src, self.current as int, self.line as int);
                        assert(errors@.map_values(|x: LoxError| x@) =~= errs_before.push(e));
                        assert(errs_before + (seq![e] + rest.1) =~= errs_before.push(e) + rest.1);
                    }
                },
                Some(kind) => {
                    let ghost tv_before = self.tokens_view();
                    self.add_token(kind, None);
                    proof {
                        let i = pre.current as int;
                        let j = self.current as int;
                        let l = pre.line as int;
                        let tok = plain_token(kind, src.subrange(i, j), l);
                        let rest = scan_from(src, j, self.line as int);
                        assert(self.tokens_view() =~= tv_before.push(tok));
                        assert(tv_before + (seq![tok] + rest.0) =~= tv_before.push(tok) + rest.0);
                    }
                },
            }
        }
        proof {
            assert(scan_from(src, self.current as int, self.line as int) == (
                seq![eof_token(self.line as int)],
                Seq::<SpecError>::empty(),
            ));
        }
        let ghost tv_before = self.tokens_view();
        let eof_line: usize = self.line;
        self.tokens.push(Token::new(TokenType::Eof, String::new(), None, eof_line));
        proof {
            let eof = eof_token(eof_line as int);
            assert(self.tokens_view() =~= tv_before.push(eof));
            assert(tv_before + seq![eof] =~= tv_before.push(eof));
            assert(tv_before + seq![eof] == scan_result(src).0);
            let errs = errors@.map_values(|x: LoxError| x@);
            assert(errs + Seq::<SpecError>::empty() =~= errs);
        }
        if errors.len() > 0 {
            self.errors = Some(errors);
        } else {
            proof {
                assert(errors@.map_values(|x: LoxError| x@) =~= Seq::<SpecError>::empty());
            }
        }
    }
}

} // verus!
