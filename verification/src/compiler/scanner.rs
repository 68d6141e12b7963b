//! The lexical scanner: a single-pass tokenizer with one character of
//! lookahead and precise source-position tracking.
//!
//! Positions are counted in Unicode scalar values from the start of the
//! input, never in bytes. The whole tokenization is modelled by the spec
//! function [`scan_spec`], and `scan_token` is proved to follow it exactly.
use vstd::prelude::*;
use vstd::string::StrSliceExecFns;
use crate::compiler::error_token::ErrorToken;
use crate::compiler::token::Token;
use crate::compiler::token::TokenType;
use crate::compiler::token::TokenKind;
use crate::text::str_eq;

verus! {

pub open spec fn is_digit_spec(c: char) -> bool {
    '0' <= c && c <= '9'
}

pub open spec fn is_alpha_spec(c: char) -> bool {
    ('a' <= c && c <= 'z') || ('A' <= c && c <= 'Z') || c == '_'
}

pub open spec fn is_ident_char(c: char) -> bool {
    is_digit_spec(c) || is_alpha_spec(c)
}

/// Whitespace that does not end a line.
pub open spec fn is_blank(c: char) -> bool {
    c == ' ' || c == '\r' || c == '\t'
}

/// An ASCII decimal digit.
pub fn is_digit(c: char) -> (r: bool)
    ensures
        r == is_digit_spec(c),
{
    c >= '0' && c <= '9'
}

/// An ASCII letter or underscore.
pub fn is_alpha(c: char) -> (r: bool)
    ensures
        r == is_alpha_spec(c),
{
    (c >= 'a' && c <= 'z') || (c >= 'A' && c <= 'Z') || c == '_'
}

/// The position and line after consuming whitespace from position `i`;
/// newlines advance the line count.
pub open spec fn skip_ws(src: Seq<char>, i: int, line: int) -> (int, int)
    decreases src.len() - i,
{
    if i < 0 || i >= src.len() {
        (i, line)
    } else if src[i] == '\n' {
        skip_ws(src, i + 1, line + 1)
    } else if is_blank(src[i]) {
        skip_ws(src, i + 1, line)
    } else {
        (i, line)
    }
}

/// The end of the maximal digit run beginning at `i`.
pub open spec fn digits_end(src: Seq<char>, i: int) -> int
    decreases src.len() - i,
{
    if 0 <= i < src.len() && is_digit_spec(src[i]) {
        digits_end(src, i + 1)
    } else {
        i
    }
}

/// The end of the maximal identifier-character run beginning at `i`.
pub open spec fn ident_end(src: Seq<char>, i: int) -> int
    decreases src.len() - i,
{
    if 0 <= i < src.len() && is_ident_char(src[i]) {
        ident_end(src, i + 1)
    } else {
        i
    }
}

/// The end of a line comment's text: the next newline or the end of input.
pub open spec fn comment_end(src: Seq<char>, i: int) -> int
    decreases src.len() - i,
{
    if 0 <= i < src.len() && src[i] != '\n' {
        comment_end(src, i + 1)
    } else {
        i
    }
}

/// Where a numeric literal beginning at `i - 1` ends: a maximal digit run,
/// then one fractional part only when a `.` is immediately followed by a
/// digit (a trailing `.` is left for the next token).
pub open spec fn number_end(src: Seq<char>, i: int) -> int {
    let d1 = digits_end(src, i);
    if d1 + 1 < src.len() && src[d1] == '.' && is_digit_spec(src[d1 + 1]) {
        digits_end(src, d1 + 2)
    } else {
        d1
    }
}

/// The index of the closing quote of a string literal whose body starts at
/// `i`, or `None` when the input ends first.
pub open spec fn string_body_end(src: Seq<char>, i: int) -> Option<int>
    decreases src.len() - i,
{
    if i < 0 || i >= src.len() {
        None
    } else if src[i] == '"' {
        Some(i)
    } else {
        string_body_end(src, i + 1)
    }
}

/// The number of newline characters in `src[i .. j)`.
pub open spec fn nl_count(src: Seq<char>, i: int, j: int) -> int
    decreases j - i,
{
    if i >= j {
        0
    } else {
        (if src[i] == '\n' { 1int } else { 0int }) + nl_count(src, i + 1, j)
    }
}

/// The keyword token kind a word maps to, or an identifier otherwise.
pub open spec fn keyword_or_ident(w: Seq<char>) -> TokenKind {
    if w == "and"@ { TokenKind::And }
    else if w == "class"@ { TokenKind::Class }
    else if w == "else"@ { TokenKind::Else }
    else if w == "false"@ { TokenKind::False }
    else if w == "for"@ { TokenKind::For }
    else if w == "fun"@ { TokenKind::Fun }
    else if w == "if"@ { TokenKind::If }
    else if w == "nil"@ { TokenKind::Nil }
    else if w == "or"@ { TokenKind::Or }
    else if w == "print"@ { TokenKind::Print }
    else if w == "return"@ { TokenKind::Return }
    else if w == "super"@ { TokenKind::Super }
    else if w == "this"@ { TokenKind::This }
    else if w == "true"@ { TokenKind::True }
    else if w == "var"@ { TokenKind::Var }
    else if w == "while"@ { TokenKind::While }
    else { TokenKind::Identifier(w) }
}

/// Everything one `scan_token` call determines: the token's view and the
/// scanner's next position and line.
pub ghost struct ScanStep {
    pub kind: TokenKind,
    pub start: int,
    pub length: int,
    pub line: int,
    pub next: int,
    pub next_line: int,
}

/// The single-token scanning relation: the token found at `pos` (after
/// whitespace) on line `line0`, and the state the scanner is left in.
pub open spec fn scan_spec(src: Seq<char>, pos: int, line0: int) -> ScanStep {
    let (s, line) = skip_ws(src, pos, line0);
    if s >= src.len() {
        ScanStep { kind: TokenKind::Eof, start: s, length: 0, line, next: s, next_line: line }
    } else {
        let c = src[s];
        if is_digit_spec(c) {
            let e = number_end(src, s + 1);
            ScanStep {
                kind: TokenKind::Number(src.subrange(s, e)),
                start: s,
                length: e - s,
                line,
                next: e,
                next_line: line,
            }
        } else if is_alpha_spec(c) {
            let e = ident_end(src, s + 1);
            ScanStep {
                kind: keyword_or_ident(src.subrange(s, e)),
                start: s,
                length: e - s,
                line,
                next: e,
                next_line: line,
            }
        } else if c == '"' {
            match string_body_end(src, s + 1) {
                Some(q) => ScanStep {
                    kind: TokenKind::String(src.subrange(s + 1, q)),
                    start: s,
                    length: q + 1 - s,
                    line: line + nl_count(src, s + 1, q),
                    next: q + 1,
                    next_line: line + nl_count(src, s + 1, q),
                },
                None => ScanStep {
                    kind: TokenKind::Error(ErrorToken::UnterminatedString),
                    start: s,
                    length: "unterminated string"@.len() as int,
                    line: line + nl_count(src, s + 1, src.len() as int),
                    next: src.len() as int,
                    next_line: line + nl_count(src, s + 1, src.len() as int),
                },
            }
        } else if c == '/' && s + 1 < src.len() && src[s + 1] == '/' {
            let e = comment_end(src, s + 2);
            ScanStep {
                kind: TokenKind::Comment(src.subrange(s + 2, e)),
                start: s,
                length: e - s,
                line,
                next: e,
                next_line: line,
            }
        } else {
            let two = s + 1 < src.len() && src[s + 1] == '=';
            let (kind, w) : (TokenKind, int) =
                if c == '(' { (TokenKind::LeftParen, 1int) }
                else if c == ')' { (TokenKind::RightParen, 1int) }
                else if c == '{' { (TokenKind::LeftBrace, 1int) }
                else if c == '}' { (TokenKind::RightBrace, 1int) }
                else if c == ';' { (TokenKind::Semicolon, 1int) }
                else if c == ',' { (TokenKind::Comma, 1int) }
                else if c == '.' { (TokenKind::Dot, 1int) }
                else if c == '-' { (TokenKind::Minus, 1int) }
                else if c == '+' { (TokenKind::Plus, 1int) }
                else if c == '*' { (TokenKind::Star, 1int) }
                else if c == '/' { (TokenKind::Slash, 1int) }
                else if c == '!' {
                    if two { (TokenKind::BangEqual, 2int) } else { (TokenKind::Bang, 1int) }
                }
                else if c == '=' {
                    if two { (TokenKind::EqualEqual, 2int) } else { (TokenKind::Equal, 1int) }
                }
                else if c == '<' {
                    if two { (TokenKind::LessEqual, 2int) } else { (TokenKind::Less, 1int) }
                }
                else if c == '>' {
                    if two { (TokenKind::GreaterEqual, 2int) } else { (TokenKind::Greater, 1int) }
                }
                else {
                    (
                        TokenKind::Error(ErrorToken::UnexpectedCharacter(c)),
                        1int,
                    )
                };
            if kind matches TokenKind::Error(_) {
                ScanStep {
                    kind,
                    start: s,
                    length: ErrorToken::UnexpectedCharacter(c).message_spec().len() as int,
                    line,
                    next: s + 1,
                    next_line: line,
                }
            } else {
                ScanStep { kind, start: s, length: w, line, next: s + w, next_line: line }
            }
        }
    }
}

/// The scanner's cursor state over a borrowed source buffer.
pub struct Scanner<'a> {
    pub source: &'a str,
    pub start: usize,
    pub current: usize,
    pub line: usize,
}

impl<'a> Scanner<'a> {
    /// The scanner's well-formedness: cursors in bounds and a line counter
    /// that can only have grown by consumed newlines. The source must leave
    /// room for one-past-the-end positions in a `usize`.
    pub open spec fn wf(&self) -> bool {
        &&& self.start <= self.current
        &&& self.current <= self.source@.len()
        &&& 1 <= self.line
        &&& self.line <= self.current + 1
        &&& self.source@.len() < usize::MAX
    }

    /// A fresh scanner at the start of `source`, on line 1.
    pub fn init(source: &'a str) -> (r: Self)
        requires
            source@.len() < usize::MAX,
        ensures
            r.wf(),
            r.source == source,
            r.start == 0,
            r.current == 0,
            r.line == 1,
    {
        Scanner { source, start: 0, current: 0, line: 1 }
    }

    fn skip_whitespace(&mut self)
        requires
            old(self).wf(),
        ensures
            final(self).wf(),
            final(self).source == old(self).source,
            final(self).start == old(self).start,
            (final(self).current as int, final(self).line as int) == skip_ws(
                old(self).source@,
                old(self).current as int,
                old(self).line as int,
            ),
            old(self).current <= final(self).current,
    {
        let n = self.source.unicode_len();
        loop
            invariant
                self.wf(),
                self.source == old(self).source,
                self.start == old(self).start,
                n == self.source@.len(),
                old(self).current <= self.current,
                skip_ws(old(self).source@, old(self).current as int, old(self).line as int)
                    == skip_ws(self.source@, self.current as int, self.line as int),
            decreases n - self.current,
        {
            if self.current >= n {
                return;
            }
            let c = self.source.get_char(self.current);
            if c == '\n' {
                self.line = self.line + 1;
                self.current = self.current + 1;
            } else if c == ' ' || c == '\r' || c == '\t' {
                self.current = self.current + 1;
            } else {
                return;
            }
        }
    }

    fn make_token(&self, token_type: TokenType<'a>) -> (t: Token<'a>)
        requires
            self.start <= self.current,
        ensures
            t.token_type == token_type,
            t.start == self.start,
            t.length == self.current - self.start,
            t.line == self.line,
    {
        Token { token_type, start: self.start, length: self.current - self.start, line: self.line }
    }

    fn error_token(&self, e: ErrorToken) -> (t: Token<'a>)
        ensures
            t.token_type == TokenType::Error(e),
            t.start == self.start,
            t.length == e.message_spec().len(),
            t.line == self.line,
    {
        let length: usize = match e {
            ErrorToken::UnterminatedString => 19,
            ErrorToken::UnexpectedCharacter(_) => 25,
            ErrorToken::StringUnderflow => 16,
            ErrorToken::StringOverflow => 15,
            ErrorToken::NumberUnderflow => 16,
            ErrorToken::NumberOverflow => 15,
            ErrorToken::IdentifierUnderflow => 20,
            ErrorToken::IdentifierOverflow => 19,
            ErrorToken::CommentUnderflow => 17,
            ErrorToken::CommentOverflow => 16,
        };
        proof {
            reveal_strlit("unterminated string");
            reveal_strlit("unexpected character: '");
            reveal_strlit("'");
            reveal_strlit("string underflow");
            reveal_strlit("string overflow");
            reveal_strlit("number underflow");
            reveal_strlit("number overflow");
            reveal_strlit("identifier underflow");
            reveal_strlit("identifier overflow");
            reveal_strlit("comment underflow");
            reveal_strlit("comment overflow");
        }
        Token { token_type: TokenType::Error(e), start: self.start, length, line: self.line }
    }

    fn number(&mut self) -> (t: Token<'a>)
        requires
            old(self).wf(),
            old(self).start + 1 == old(self).current,
        ensures
            final(self).wf(),
            final(self).source == old(self).source,
            final(self).start == old(self).start,
            final(self).line == old(self).line,
            final(self).current as int == number_end(old(self).source@, old(self).current as int),
            t.token_type.kind() == TokenKind::Number(
                old(self).source@.subrange(old(self).start as int, final(self).current as int),
            ),
            t.start == old(self).start,
            t.length == final(self).current - old(self).start,
            t.line == old(self).line,
    {
        let n = self.source.unicode_len();
        self.digit_run(n);
        if self.current + 1 < n {
            let dot = self.source.get_char(self.current);
            if dot == '.' {
                let after = self.source.get_char(self.current + 1);
                if is_digit(after) {
                    self.current = self.current + 2;
                    self.digit_run(n);
                }
            }
        }
        let slice = self.source.substring_char(self.start, self.current);
        self.make_token(TokenType::Number(slice))
    }

    /// Consumes the maximal run of digits at the cursor.
    fn digit_run(&mut self, n: usize)
        requires
            old(self).wf(),
            n == old(self).source@.len(),
        ensures
            final(self).wf(),
            final(self).source == old(self).source,
            final(self).start == old(self).start,
            final(self).line == old(self).line,
            final(self).current as int == digits_end(old(self).source@, old(self).current as int),
            old(self).current <= final(self).current,
    {
        loop
            invariant
                self.wf(),
                self.source == old(self).source,
                self.start == old(self).start,
                self.line == old(self).line,
                n == self.source@.len(),
                old(self).current <= self.current,
                digits_end(old(self).source@, old(self).current as int)
                    == digits_end(self.source@, self.current as int),
            decreases n - self.current,
        {
            if self.current >= n {
                return;
            }
            let c = self.source.get_char(self.current);
            if !is_digit(c) {
                return;
            }
            self.current = self.current + 1;
        }
    }

    fn identifer(&mut self) -> (t: Token<'a>)
        requires
            old(self).wf(),
            old(self).start + 1 == old(self).current,
        ensures
            final(self).wf(),
            final(self).source == old(self).source,
            final(self).start == old(self).start,
            final(self).line == old(self).line,
            final(self).current as int == ident_end(old(self).source@, old(self).current as int),
            t.token_type.kind() == keyword_or_ident(
                old(self).source@.subrange(old(self).start as int, final(self).current as int),
            ),
            t.start == old(self).start,
            t.length == final(self).current - old(self).start,
            t.line == old(self).line,
    {
        let n = self.source.unicode_len();
        loop
            invariant
                self.wf(),
                self.source == old(self).source,
                self.start == old(self).start,
                self.line == old(self).line,
                n == self.source@.len(),
                old(self).current <= self.current,
                ident_end(old(self).source@, old(self).current as int)
                    == ident_end(self.source@, self.current as int),
            ensures
                self.wf(),
                self.source == old(self).source,
                self.start == old(self).start,
                self.line == old(self).line,
                old(self).current <= self.current,
                self.current as int == ident_end(old(self).source@, old(self).current as int),
            decreases n - self.current,
        {
            if self.current >= n {
                break;
            }
            let c = self.source.get_char(self.current);
            if !(is_digit(c) || is_alpha(c)) {
                break;
            }
            self.current = self.current + 1;
        }
        let slice = self.source.substring_char(self.start, self.current);
        let token_type = if str_eq(slice, "and") { TokenType::And }
            else if str_eq(slice, "class") { TokenType::Class }
            else if str_eq(slice, "else") { TokenType::Else }
            else if str_eq(slice, "false") { TokenType::False }
            else if str_eq(slice, "for") { TokenType::For }
            else if str_eq(slice, "fun") { TokenType::Fun }
            else if str_eq(slice, "if") { TokenType::If }
            else if str_eq(slice, "nil") { TokenType::Nil }
            else if str_eq(slice, "or") { TokenType::Or }
            else if str_eq(slice, "print") { TokenType::Print }
            else if str_eq(slice, "return") { TokenType::Return }
            else if str_eq(slice, "super") { TokenType::Super }
            else if str_eq(slice, "this") { TokenType::This }
            else if str_eq(slice, "true") { TokenType::True }
            else if str_eq(slice, "var") { TokenType::Var }
            else if str_eq(slice, "while") { TokenType::While }
            else { TokenType::Identifier(slice) };
        self.make_token(token_type)
    }

    fn string(&mut self) -> (t: Token<'a>)
        requires
            old(self).wf(),
            old(self).start + 1 == old(self).current,
        ensures
            final(self).wf(),
            final(self).source == old(self).source,
            final(self).start == old(self).start,
            ({
                let src = old(self).source@;
                let s = old(self).start as int;
                match string_body_end(src, old(self).current as int) {
                    Some(q) => {
                        &&& t.token_type.kind() == TokenKind::String(src.subrange(s + 1, q))
                        &&& t.length == q + 1 - s
                        &&& final(self).current == q + 1
                    },
                    None => {
                        &&& t.token_type == TokenType::Error(ErrorToken::UnterminatedString)
                        &&& t.length == ErrorToken::UnterminatedString.message_spec().len()
                        &&& final(self).current == src.len()
                    },
                }
            }),
            final(self).line as int == old(self).line + nl_count(
                old(self).source@,
                old(self).current as int,
                match string_body_end(old(self).source@, old(self).current as int) {
                    Some(q) => q,
                    None => old(self).source@.len() as int,
                },
            ),
            t.line == final(self).line,
            t.start == old(self).start,
    {
        let n = self.source.unicode_len();
        loop
            invariant
                self.wf(),
                self.source == old(self).source,
                self.start == old(self).start,
                n == self.source@.len(),
                old(self).current <= self.current,
                string_body_end(old(self).source@, old(self).current as int)
                    == string_body_end(self.source@, self.current as int),
                self.line as int == old(self).line + nl_count(
                    old(self).source@,
                    old(self).current as int,
                    self.current as int,
                ),
            ensures
                self.wf(),
                self.source == old(self).source,
                self.start == old(self).start,
                old(self).current <= self.current,
                string_body_end(old(self).source@, old(self).current as int)
                    == string_body_end(self.source@, self.current as int),
                self.line as int == old(self).line + nl_count(
                    old(self).source@,
                    old(self).current as int,
                    self.current as int,
                ),
                self.current >= n || self.source@[self.current as int] == '"',
            decreases n - self.current,
        {
            if self.current >= n {
                break;
            }
            let c = self.source.get_char(self.current);
            if c == '"' {
                break;
            }
            proof {
                lemma_nl_count_snoc(
                    self.source@,
                    old(self).current as int,
                    self.current as int,
                );
            }
            if c == '\n' {
                self.line = self.line + 1;
            }
            self.current = self.current + 1;
        }

        if self.current >= n {
            return self.error_token(ErrorToken::UnterminatedString);
        }

        let slice = self.source.substring_char(self.start + 1, self.current);
        self.current = self.current + 1;
        self.make_token(TokenType::String(slice))
    }

    fn comment(&mut self) -> (t: Token<'a>)
        requires
            old(self).wf(),
            old(self).start + 2 == old(self).current,
        ensures
            final(self).wf(),
            final(self).source == old(self).source,
            final(self).start == old(self).start,
            final(self).line == old(self).line,
            final(self).current as int == comment_end(old(self).source@, old(self).current as int),
            t.token_type.kind() == TokenKind::Comment(
                old(self).source@.subrange(old(self).current as int, final(self).current as int),
            ),
            t.start == old(self).start,
            t.length == final(self).current - old(self).start,
            t.line == old(self).line,
    {
        let n = self.source.unicode_len();
        loop
            invariant
                self.wf(),
                self.source == old(self).source,
                self.start == old(self).start,
                self.line == old(self).line,
                n == self.source@.len(),
                old(self).current <= self.current,
                comment_end(old(self).source@, old(self).current as int)
                    == comment_end(self.source@, self.current as int),
            ensures
                self.wf(),
                self.source == old(self).source,
                self.start == old(self).start,
                self.line == old(self).line,
                old(self).current <= self.current,
                self.current as int == comment_end(old(self).source@, old(self).current as int),
            decreases n - self.current,
        {
            if self.current >= n {
                break;
            }
            let c = self.source.get_char(self.current);
            if c == '\n' {
                break;
            }
            self.current = self.current + 1;
        }
        let slice = self.source.substring_char(self.start + 2, self.current);
        self.make_token(TokenType::Comment(slice))
    }

    fn match_next(&mut self, c: char) -> (r: bool)
        requires
            old(self).wf(),
        ensures
            final(self).wf(),
            final(self).source == old(self).source,
            final(self).start == old(self).start,
            final(self).line == old(self).line,
            r == (old(self).current < old(self).source@.len()
                && old(self).source@[old(self).current as int] == c),
            final(self).current == if r { old(self).current + 1 } else { old(self).current as int },
    {
        let n = self.source.unicode_len();
        if self.current < n {
            let next = self.source.get_char(self.current);
            if next == c {
                self.current = self.current + 1;
                return true;
            }
        }
        false
    }

    /// Produces the next token and advances the cursor, exactly as
    /// [`scan_spec`] describes. Call repeatedly until an end-of-input token
    /// is returned; malformed input is packaged as `Error` tokens and never
    /// stops the scanner.
    pub fn scan_token(&mut self) -> (t: Token<'a>)
        requires
            old(self).wf(),
        ensures
            final(self).wf(),
            final(self).source == old(self).source,
            ({
                let r = scan_spec(old(self).source@, old(self).current as int, old(self).line as int);
                &&& t.token_type.kind() == r.kind
                &&& t.start as int == r.start
                &&& t.length as int == r.length
                &&& t.line as int == r.line
                &&& final(self).start as int == r.start
                &&& final(self).current as int == r.next
                &&& final(self).line as int == r.next_line
            }),
    {
        self.skip_whitespace();
        self.start = self.current;

        let n = self.source.unicode_len();
        if self.current >= n {
            return self.make_token(TokenType::Eof);
        }
        let c = self.source.get_char(self.current);
        self.current = self.current + 1;

        if is_digit(c) {
            return self.number();
        }
        if is_alpha(c) {
            return self.identifer();
        }

        match c {
            '(' => self.make_token(TokenType::LeftParen),
            ')' => self.make_token(TokenType::RightParen),
            '{' => self.make_token(TokenType::LeftBrace),
            '}' => self.make_token(TokenType::RightBrace),
            ';' => self.make_token(TokenType::Semicolon),
            ',' => self.make_token(TokenType::Comma),
            '.' => self.make_token(TokenType::Dot),
            '-' => self.make_token(TokenType::Minus),
            '+' => self.make_token(TokenType::Plus),
            '*' => self.make_token(TokenType::Star),
            '!' => {
                if self.match_next('=') {
                    self.make_token(TokenType::BangEqual)
                } else {
                    self.make_token(TokenType::Bang)
                }
            },
            '=' => {
                if self.match_next('=') {
                    self.make_token(TokenType::EqualEqual)
                } else {
                    self.make_token(TokenType::Equal)
                }
            },
            '<' => {
                if self.match_next('=') {
                    self.make_token(TokenType::LessEqual)
                } else {
                    self.make_token(TokenType::Less)
                }
            },
            '>' => {
                if self.match_next('=') {
                    self.make_token(TokenType::GreaterEqual)
                } else {
                    self.make_token(TokenType::Greater)
                }
            },
            '/' => {
                if self.match_next('/') {
                    self.comment()
                } else {
                    self.make_token(TokenType::Slash)
                }
            },
            '"' => self.string(),
            _ => self.error_token(ErrorToken::UnexpectedCharacter(c)),
        }
    }
}

pub proof fn lemma_skip_ws_bounds(src: Seq<char>, i: int, line: int)
    requires
        0 <= i <= src.len(),
    ensures
        i <= skip_ws(src, i, line).0 <= src.len(),
        skip_ws(src, i, line).0 < src.len() ==> !is_blank(src[skip_ws(src, i, line).0])
            && src[skip_ws(src, i, line).0] != '\n',
    decreases src.len() - i,
{
    if i < src.len() && (src[i] == '\n' || is_blank(src[i])) {
        lemma_skip_ws_bounds(src, i + 1, if src[i] == '\n' { line + 1 } else { line });
    }
}

pub proof fn lemma_digits_end_bounds(src: Seq<char>, i: int)
    requires
        0 <= i <= src.len(),
    ensures
        i <= digits_end(src, i) <= src.len(),
    decreases src.len() - i,
{
    if i < src.len() && is_digit_spec(src[i]) {
        lemma_digits_end_bounds(src, i + 1);
    }
}

pub proof fn lemma_ident_end_bounds(src: Seq<char>, i: int)
    requires
        0 <= i <= src.len(),
    ensures
        i <= ident_end(src, i) <= src.len(),
    decreases src.len() - i,
{
    if i < src.len() && is_ident_char(src[i]) {
        lemma_ident_end_bounds(src, i + 1);
    }
}

pub proof fn lemma_comment_end_bounds(src: Seq<char>, i: int)
    requires
        0 <= i <= src.len(),
    ensures
        i <= comment_end(src, i) <= src.len(),
    decreases src.len() - i,
{
    if i < src.len() && src[i] != '\n' {
        lemma_comment_end_bounds(src, i + 1);
    }
}

pub proof fn lemma_string_body_end_bounds(src: Seq<char>, i: int)
    requires
        0 <= i <= src.len(),
    ensures
        string_body_end(src, i) matches Some(q) ==> i <= q < src.len(),
    decreases src.len() - i,
{
    if i < src.len() && src[i] != '"' {
        lemma_string_body_end_bounds(src, i + 1);
    }
}

/// A scanned token other than end-of-input moves the cursor strictly
/// forward, and never past the end of input.
pub proof fn lemma_scan_progress(src: Seq<char>, pos: int, line: int)
    requires
        0 <= pos <= src.len(),
    ensures
        pos <= scan_spec(src, pos, line).next <= src.len(),
        !(scan_spec(src, pos, line).kind is Eof) ==> scan_spec(src, pos, line).next > pos,
        scan_spec(src, pos, line).kind is Eof ==> scan_spec(src, pos, line).next
            == src.len(),
{
    lemma_skip_ws_bounds(src, pos, line);
    let s = skip_ws(src, pos, line).0;
    if s < src.len() {
        let c = src[s];
        if is_digit_spec(c) {
            lemma_digits_end_bounds(src, s + 1);
            let d1 = digits_end(src, s + 1);
            if d1 + 1 < src.len() && src[d1] == '.' && is_digit_spec(src[d1 + 1]) {
                lemma_digits_end_bounds(src, d1 + 2);
            }
        } else if is_alpha_spec(c) {
            lemma_ident_end_bounds(src, s + 1);
        } else if c == '"' {
            lemma_string_body_end_bounds(src, s + 1);
        } else if c == '/' && s + 1 < src.len() && src[s + 1] == '/' {
            lemma_comment_end_bounds(src, s + 2);
        }
    }
}

/// Whether scanning from this position reaches end-of-input without ever
/// producing an error token.
pub open spec fn scan_clean(src: Seq<char>, pos: int, line: int) -> bool
    decreases src.len() - pos,
        when 0 <= pos <= src.len()
        via scan_clean_dec
{
    let st = scan_spec(src, pos, line);
    if st.kind is Eof {
        true
    } else if st.kind is Error {
        false
    } else {
        scan_clean(src, st.next, st.next_line)
    }
}

#[via_fn]
proof fn scan_clean_dec(src: Seq<char>, pos: int, line: int) {
    lemma_scan_progress(src, pos, line);
}

/// The first non-error token scanned from this position, and whether any
/// error tokens were passed over on the way to it.
pub open spec fn advance_spec(src: Seq<char>, pos: int, line: int) -> (ScanStep, bool)
    decreases src.len() - pos,
        when 0 <= pos <= src.len()
        via advance_spec_dec
{
    let st = scan_spec(src, pos, line);
    if st.kind is Error {
        let rec = advance_spec(src, st.next, st.next_line);
        (rec.0, true)
    } else {
        (st, false)
    }
}

#[via_fn]
proof fn advance_spec_dec(src: Seq<char>, pos: int, line: int) {
    lemma_scan_progress(src, pos, line);
}

pub proof fn lemma_advance_spec_bounds(src: Seq<char>, pos: int, line: int)
    requires
        0 <= pos <= src.len(),
    ensures
        pos <= advance_spec(src, pos, line).0.next <= src.len(),
        !(advance_spec(src, pos, line).0.kind is Error),
        !(advance_spec(src, pos, line).0.kind is Eof) ==> advance_spec(src, pos, line).0.next
            > pos,
        advance_spec(src, pos, line).0.kind is Eof ==> advance_spec(src, pos, line).0.next
            == src.len(),
    decreases src.len() - pos,
{
    lemma_scan_progress(src, pos, line);
    let st = scan_spec(src, pos, line);
    if st.kind is Error {
        lemma_advance_spec_bounds(src, st.next, st.next_line);
    }
}

/// A scan is clean exactly when taking the next non-error token skips no
/// errors and the rest scans clean from it.
pub proof fn lemma_scan_clean_advance(src: Seq<char>, pos: int, line: int)
    requires
        0 <= pos <= src.len(),
    ensures
        scan_clean(src, pos, line) == ({
            let a = advance_spec(src, pos, line);
            !a.1 && (a.0.kind is Eof || scan_clean(src, a.0.next, a.0.next_line))
        }),
    decreases src.len() - pos,
{
    lemma_scan_progress(src, pos, line);
}

/// Every position in `[i, j)` holds a decimal digit.
pub open spec fn all_digits(src: Seq<char>, i: int, j: int) -> bool {
    forall|t: int| i <= t < j ==> is_digit_spec(src[t])
}

/// A well-formed numeric literal: a digit run, optionally followed by one
/// fractional part introduced by a dot with at least one digit after it.
pub open spec fn numeric_literal(s: Seq<char>) -> bool {
    &&& s.len() >= 1
    &&& is_digit_spec(s[0])
    &&& (all_digits(s, 0, s.len() as int) || exists|k: int|
        1 <= k <= s.len() - 2 && s[k] == '.' && all_digits(s, 0, k) && all_digits(
            s,
            k + 1,
            s.len() as int,
        ))
}

pub proof fn lemma_digits_end_exact(src: Seq<char>, i: int, j: int)
    requires
        0 <= i <= j <= src.len(),
        all_digits(src, i, j),
        j < src.len() ==> !is_digit_spec(src[j]),
    ensures
        digits_end(src, i) == j,
    decreases j - i,
{
    if i < j {
        lemma_digits_end_exact(src, i + 1, j);
    }
}

pub proof fn lemma_ident_end_exact(src: Seq<char>, i: int, j: int)
    requires
        0 <= i <= j <= src.len(),
        forall|t: int| i <= t < j ==> is_ident_char(src[t]),
        j < src.len() ==> !is_ident_char(src[j]),
    ensures
        ident_end(src, i) == j,
    decreases j - i,
{
    if i < j {
        lemma_ident_end_exact(src, i + 1, j);
    }
}

/// Scanning a whole well-formed numeric literal yields exactly one Number
/// token carrying the entire input as its slice, and leaves the scanner at
/// the end of input, where only an end-of-input token follows.
pub proof fn numeric_literal_scans_whole(s: Seq<char>)
    requires
        numeric_literal(s),
    ensures
        scan_spec(s, 0, 1).kind == TokenKind::Number(s),
        scan_spec(s, 0, 1).start == 0,
        scan_spec(s, 0, 1).length == s.len(),
        scan_spec(s, 0, 1).next == s.len(),
        scan_spec(s, s.len() as int, 1).kind == TokenKind::Eof,
{
    let len = s.len() as int;
    assert(skip_ws(s, 0, 1) == (0int, 1int));
    if all_digits(s, 0, len) {
        lemma_digits_end_exact(s, 1, len);
        assert(number_end(s, 1) == len);
    } else {
        let k = choose|k: int|
            1 <= k <= s.len() - 2 && s[k] == '.' && all_digits(s, 0, k) && all_digits(
                s,
                k + 1,
                len,
            );
        lemma_digits_end_exact(s, 1, k);
        lemma_digits_end_exact(s, k + 2, len);
        assert(number_end(s, 1) == len);
    }
    assert(s.subrange(0, len) =~= s);
}

/// The sixteen reserved words.
pub open spec fn reserved_words() -> Seq<Seq<char>> {
    seq![
        "and"@, "class"@, "else"@, "false"@, "for"@, "fun"@, "if"@, "nil"@, "or"@, "print"@,
        "return"@, "super"@, "this"@, "true"@, "var"@, "while"@,
    ]
}

pub open spec fn is_reserved_word(w: Seq<char>) -> bool {
    reserved_words().contains(w)
}

/// The characters of every reserved word: a leading letter, then
/// identifier characters.
pub proof fn reserved_word_chars(w: Seq<char>)
    requires
        is_reserved_word(w),
    ensures
        2 <= w.len() <= 6,
        is_alpha_spec(w[0]),
        forall|t: int| 1 <= t < w.len() ==> is_ident_char(w[t]),
        !(keyword_or_ident(w) is Identifier),
{
    reveal_strlit("and");
    reveal_strlit("class");
    reveal_strlit("else");
    reveal_strlit("false");
    reveal_strlit("for");
    reveal_strlit("fun");
    reveal_strlit("if");
    reveal_strlit("nil");
    reveal_strlit("or");
    reveal_strlit("print");
    reveal_strlit("return");
    reveal_strlit("super");
    reveal_strlit("this");
    reveal_strlit("true");
    reveal_strlit("var");
    reveal_strlit("while");
    let ws = reserved_words();
    let i = choose|i: int| 0 <= i < ws.len() && ws[i] == w;
    assert(is_alpha_spec(w[0]) && forall|t: int| 1 <= t < w.len() ==> is_ident_char(w[t]))
        by {
        assert(forall|t: int| 1 <= t < w.len() ==> is_ident_char(#[trigger] w[t]));
    }
}

/// Scanning a word made of identifier characters yields one token for the
/// whole word: its keyword token when the word is reserved, an identifier
/// otherwise.
pub proof fn ident_word_scan(w: Seq<char>)
    requires
        w.len() >= 1,
        is_alpha_spec(w[0]),
        forall|t: int| 1 <= t < w.len() ==> is_ident_char(w[t]),
    ensures
        scan_spec(w, 0, 1).kind == keyword_or_ident(w),
        scan_spec(w, 0, 1).start == 0,
        scan_spec(w, 0, 1).length == w.len(),
        scan_spec(w, 0, 1).next == w.len(),
{
    let len = w.len() as int;
    assert(skip_ws(w, 0, 1) == (0int, 1int));
    assert(!is_digit_spec(w[0]));
    lemma_ident_end_exact(w, 1, len);
    assert(w.subrange(0, len) =~= w);
}

/// Scanning exactly a reserved word yields its keyword token, never an
/// identifier, and consumes the whole input.
pub proof fn reserved_word_scans_to_keyword(w: Seq<char>)
    requires
        is_reserved_word(w),
    ensures
        scan_spec(w, 0, 1).kind == keyword_or_ident(w),
        !(scan_spec(w, 0, 1).kind is Identifier),
        scan_spec(w, 0, 1).next == w.len(),
{
    reserved_word_chars(w);
    ident_word_scan(w);
}

/// Scanning a reserved word with one more identifier character appended
/// yields an identifier token for the longer word, never a keyword.
pub proof fn reserved_word_with_suffix_is_identifier(w: Seq<char>, c: char)
    requires
        is_reserved_word(w),
        is_ident_char(c),
    ensures
        scan_spec(w.push(c), 0, 1).kind == TokenKind::Identifier(w.push(c)),
        scan_spec(w.push(c), 0, 1).next == w.len() + 1,
{
    let s = w.push(c);
    reserved_word_chars(w);
    assert(s[0] == w[0]);
    assert(forall|t: int| 1 <= t < s.len() ==> is_ident_char(#[trigger] s[t]));
    ident_word_scan(s);
    reveal_strlit("and");
    reveal_strlit("class");
    reveal_strlit("else");
    reveal_strlit("false");
    reveal_strlit("for");
    reveal_strlit("fun");
    reveal_strlit("if");
    reveal_strlit("nil");
    reveal_strlit("or");
    reveal_strlit("print");
    reveal_strlit("return");
    reveal_strlit("super");
    reveal_strlit("this");
    reveal_strlit("true");
    reveal_strlit("var");
    reveal_strlit("while");
    let ws = reserved_words();
    let i = choose|i: int| 0 <= i < ws.len() && ws[i] == w;
    assert(s.len() == w.len() + 1);
    assert(keyword_or_ident(s) == TokenKind::Identifier(s));
}

pub proof fn lemma_no_quote_means_none(src: Seq<char>, i: int)
    requires
        0 <= i <= src.len(),
        forall|j: int| i <= j < src.len() ==> src[j] != '"',
    ensures
        string_body_end(src, i) is None,
    decreases src.len() - i,
{
    if i < src.len() {
        lemma_no_quote_means_none(src, i + 1);
    }
}

/// An input that ends inside a string literal scans to an unterminated
/// string error token, whatever the string's contents, and leaves the
/// scanner at the end of input.
pub proof fn unterminated_string_law(src: Seq<char>, pos: int, line: int)
    requires
        0 <= pos < src.len(),
        src[pos] == '"',
        forall|j: int| pos < j < src.len() ==> src[j] != '"',
    ensures
        scan_spec(src, pos, line).kind == TokenKind::Error(ErrorToken::UnterminatedString),
        scan_spec(src, pos, line).next == src.len(),
{
    assert(skip_ws(src, pos, line) == (pos, line));
    lemma_no_quote_means_none(src, pos + 1);
}

/// Counting newlines over `[i, j + 1)` adds the indicator of position `j`.
pub proof fn lemma_nl_count_snoc(src: Seq<char>, i: int, j: int)
    requires
        i <= j,
    ensures
        nl_count(src, i, j + 1) == nl_count(src, i, j) + if src[j] == '\n' { 1int } else { 0int },
    decreases j - i,
{
    if i < j {
        lemma_nl_count_snoc(src, i + 1, j);
    } else {
        assert(nl_count(src, i, j + 1) == (if src[i] == '\n' { 1int } else { 0int }) + nl_count(
            src,
            i + 1,
            j + 1,
        ));
        assert(nl_count(src, i + 1, j + 1) == 0);
        assert(nl_count(src, i, j) == 0);
    }
}

} // verus!
