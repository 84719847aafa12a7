//! The lexer: turns source characters into tokens, one at a time.
use vstd::prelude::*;

verus! {

/// What kind of token was read.
#[derive(Clone, Copy, Debug, PartialEq, Eq, Structural)]
pub enum TokenKind {
    // Keywords and type names
    Let,
    Int,
    Bool,
    StringType,
    DoubleType,
    While,
    For,
    If,
    Elif,
    Else,
    Funct,
    Return,
    Print,
    // Literals and names
    Number,
    Double,
    True,
    False,
    StrLiteral,
    Ident,
    // Operators
    Plus,
    Minus,
    Star,
    Slash,
    Percent,
    Or,
    And,
    Eq,
    LessThan,
    GreaterThan,
    LessEqual,
    GreaterEqual,
    Neq,
    Not,
    Assign,
    // Punctuation
    Colon,
    Semicolon,
    Comma,
    LParen,
    RParen,
    LBrace,
    RBrace,
    LBracket,
    RBracket,
    // End of input, and a character that starts no token
    EOF,
    Unknown,
}

/// A token: its kind and its text. The text of a string literal is what
/// stands between its quotes; of any other token, the characters it was read
/// from (empty at the end of input).
#[derive(Debug)]
pub struct Token {
    pub kind: TokenKind,
    pub text: Vec<char>,
}

/// Unicode white space: what `char::is_whitespace` accepts.
pub open spec fn is_space(c: char) -> bool {
    ('\t' <= c <= '\r') || c == ' ' || c == '\u{85}' || c == '\u{a0}' || c == '\u{1680}' || ('\u{2000}' <= c
        <= '\u{200a}') || c == '\u{2028}' || c == '\u{2029}' || c == '\u{202f}' || c == '\u{205f}' || c == '\u{3000}'
}

pub open spec fn is_digit(c: char) -> bool {
    '0' <= c <= '9'
}

pub open spec fn is_alpha(c: char) -> bool {
    ('a' <= c <= 'z') || ('A' <= c <= 'Z')
}

/// The first position at or after `i` that holds no whitespace.
pub open spec fn skip_spaces(s: Seq<char>, i: int) -> int
    decreases s.len() - i,
{
    if 0 <= i < s.len() && is_space(s[i]) {
        skip_spaces(s, i + 1)
    } else {
        i
    }
}

/// The end of the letters and digits that start at `i`.
pub open spec fn word_end(s: Seq<char>, i: int) -> int
    decreases s.len() - i,
{
    if 0 <= i < s.len() && (is_alpha(s[i]) || is_digit(s[i])) {
        word_end(s, i + 1)
    } else {
        i
    }
}

/// The position of the first `"` at or after `i`, or the end of input.
pub open spec fn quote_end(s: Seq<char>, i: int) -> int
    decreases s.len() - i,
{
    if 0 <= i < s.len() && s[i] != '"' {
        quote_end(s, i + 1)
    } else {
        i
    }
}

/// The end of a number's digits from `i`, where one `.` is taken while
/// `dot` (a `.` already seen) is false.
pub open spec fn number_end(s: Seq<char>, i: int, dot: bool) -> int
    decreases s.len() - i,
{
    if 0 <= i < s.len() && (is_digit(s[i]) || (s[i] == '.' && !dot)) {
        number_end(s, i + 1, dot || s[i] == '.')
    } else {
        i
    }
}

/// Whether the number read from `i` (as `number_end` reads it) holds a `.`.
pub open spec fn number_has_dot(s: Seq<char>, i: int, dot: bool) -> bool
    decreases s.len() - i,
{
    if 0 <= i < s.len() && (is_digit(s[i]) || (s[i] == '.' && !dot)) {
        number_has_dot(s, i + 1, dot || s[i] == '.')
    } else {
        dot
    }
}

/// The kind of a word: a keyword, or a name.
pub open spec fn keyword(w: Seq<char>) -> TokenKind {
    if w == "let"@ {
        TokenKind::Let
    } else if w == "print"@ {
        TokenKind::Print
    } else if w == "int"@ {
        TokenKind::Int
    } else if w == "bool"@ {
        TokenKind::Bool
    } else if w == "string"@ {
        TokenKind::StringType
    } else if w == "double"@ {
        TokenKind::DoubleType
    } else if w == "while"@ {
        TokenKind::While
    } else if w == "for"@ {
        TokenKind::For
    } else if w == "if"@ {
        TokenKind::If
    } else if w == "elif"@ {
        TokenKind::Elif
    } else if w == "else"@ {
        TokenKind::Else
    } else if w == "funct"@ {
        TokenKind::Funct
    } else if w == "return"@ {
        TokenKind::Return
    } else if w == "true"@ {
        TokenKind::True
    } else if w == "false"@ {
        TokenKind::False
    } else if w == "and"@ {
        TokenKind::And
    } else if w == "or"@ {
        TokenKind::Or
    } else if w == "not"@ {
        TokenKind::Not
    } else {
        TokenKind::Ident
    }
}

/// The kind of a one-character token.
pub open spec fn single_kind(c: char) -> TokenKind {
    if c == '+' {
        TokenKind::Plus
    } else if c == '-' {
        TokenKind::Minus
    } else if c == '*' {
        TokenKind::Star
    } else if c == '/' {
        TokenKind::Slash
    } else if c == '%' {
        TokenKind::Percent
    } else if c == ';' {
        TokenKind::Semicolon
    } else if c == ',' {
        TokenKind::Comma
    } else if c == ':' {
        TokenKind::Colon
    } else if c == '(' {
        TokenKind::LParen
    } else if c == ')' {
        TokenKind::RParen
    } else if c == '{' {
        TokenKind::LBrace
    } else if c == '}' {
        TokenKind::RBrace
    } else if c == '[' {
        TokenKind::LBracket
    } else if c == ']' {
        TokenKind::RBracket
    } else {
        TokenKind::Unknown
    }
}

/// The token that starts at `i` (whitespace already skipped): its kind and
/// the position after it.
pub open spec fn scan(s: Seq<char>, i: int) -> (TokenKind, int) {
    if i >= s.len() {
        (TokenKind::EOF, i)
    } else {
        let c = s[i];
        let next_is_eq = i + 1 < s.len() && s[i + 1] == '=';
        if c == '=' {
            if next_is_eq { (TokenKind::Eq, i + 2) } else { (TokenKind::Assign, i + 1) }
        } else if c == '<' {
            if next_is_eq { (TokenKind::LessEqual, i + 2) } else { (TokenKind::LessThan, i + 1) }
        } else if c == '>' {
            if next_is_eq { (TokenKind::GreaterEqual, i + 2) } else { (TokenKind::GreaterThan, i + 1) }
        } else if c == '!' {
            if next_is_eq { (TokenKind::Neq, i + 2) } else { (TokenKind::Not, i + 1) }
        } else if c == '"' {
            let e = quote_end(s, i + 1);
            (TokenKind::StrLiteral, if e < s.len() { e + 1 } else { e })
        } else if is_digit(c) {
            let e = number_end(s, i + 1, false);
            (if number_has_dot(s, i + 1, false) { TokenKind::Double } else { TokenKind::Number }, e)
        } else if is_alpha(c) {
            let e = word_end(s, i + 1);
            (keyword(s.subrange(i, e)), e)
        } else {
            (single_kind(c), i + 1)
        }
    }
}

/// The text of the token that starts at `i` and ends before `next`.
pub open spec fn token_text(s: Seq<char>, i: int, kind: TokenKind, next: int) -> Seq<char> {
    if kind == TokenKind::StrLiteral {
        s.subrange(i + 1, quote_end(s, i + 1))
    } else if kind == TokenKind::EOF {
        Seq::empty()
    } else {
        s.subrange(i, next)
    }
}

/// Reads tokens from a sequence of characters.
#[derive(Debug)]
pub struct Lexer {
    input: Vec<char>,
    position: usize,
}


proof fn lemma_scans_forward(s: Seq<char>, i: int, dot: bool)
    requires
        0 <= i <= s.len(),
    ensures
        i <= skip_spaces(s, i) <= s.len(),
        i <= word_end(s, i) <= s.len(),
        i <= quote_end(s, i) <= s.len(),
        i <= number_end(s, i, dot) <= s.len(),
    decreases s.len() - i,
{
    if i < s.len() {
        lemma_scans_forward(s, i + 1, dot);
        lemma_scans_forward(s, i + 1, dot || s[i] == '.');
    }
}

/// Relies on `str::chars`, collected: the characters of the string in order.
#[verifier::external_body]
fn chars_of(s: &str) -> (r: Vec<char>)
    ensures
        r@ == s@,
{
    s.chars().collect()
}

pub fn is_space_char(c: char) -> (r: bool)
    ensures
        r == is_space(c),
{
    ('\t' <= c && c <= '\r') || c == ' ' || c == '\u{85}' || c == '\u{a0}' || c == '\u{1680}' || ('\u{2000}' <= c
        && c <= '\u{200a}') || c == '\u{2028}' || c == '\u{2029}' || c == '\u{202f}' || c == '\u{205f}' || c
        == '\u{3000}'
}

pub fn is_digit_char(c: char) -> (r: bool)
    ensures
        r == is_digit(c),
{
    '0' <= c && c <= '9'
}

pub fn is_alpha_char(c: char) -> (r: bool)
    ensures
        r == is_alpha(c),
{
    ('a' <= c && c <= 'z') || ('A' <= c && c <= 'Z')
}

/// Whether the characters `w` spell the word `lit`.
fn word_is(w: &Vec<char>, lit: &str) -> (r: bool)
    ensures
        r == (w@ == lit@),
{
    let n = lit.unicode_len();
    if w.len() != n {
        return false;
    }
    let mut i: usize = 0;
    while i < n
        invariant
            n == lit@.len(),
            w.len() == n,
            i <= n,
            forall|j: int| 0 <= j < i ==> w@[j] == lit@[j],
        decreases n - i,
    {
        if w[i] != lit.get_char(i) {
            return false;
        }
        i += 1;
    }
    proof {
        assert(w@ =~= lit@);
    }
    true
}

fn keyword_of(w: &Vec<char>) -> (k: TokenKind)
    ensures
        k == keyword(w@),
{
    if word_is(w, "let") {
        TokenKind::Let
    } else if word_is(w, "print") {
        TokenKind::Print
    } else if word_is(w, "int") {
        TokenKind::Int
    } else if word_is(w, "bool") {
        TokenKind::Bool
    } else if word_is(w, "string") {
        TokenKind::StringType
    } else if word_is(w, "double") {
        TokenKind::DoubleType
    } else if word_is(w, "while") {
        TokenKind::While
    } else if word_is(w, "for") {
        TokenKind::For
    } else if word_is(w, "if") {
        TokenKind::If
    } else if word_is(w, "elif") {
        TokenKind::Elif
    } else if word_is(w, "else") {
        TokenKind::Else
    } else if word_is(w, "funct") {
        TokenKind::Funct
    } else if word_is(w, "return") {
        TokenKind::Return
    } else if word_is(w, "true") {
        TokenKind::True
    } else if word_is(w, "false") {
        TokenKind::False
    } else if word_is(w, "and") {
        TokenKind::And
    } else if word_is(w, "or") {
        TokenKind::Or
    } else if word_is(w, "not") {
        TokenKind::Not
    } else {
        TokenKind::Ident
    }
}

fn single_kind_of(c: char) -> (k: TokenKind)
    ensures
        k == single_kind(c),
{
    if c == '+' {
        TokenKind::Plus
    } else if c == '-' {
        TokenKind::Minus
    } else if c == '*' {
        TokenKind::Star
    } else if c == '/' {
        TokenKind::Slash
    } else if c == '%' {
        TokenKind::Percent
    } else if c == ';' {
        TokenKind::Semicolon
    } else if c == ',' {
        TokenKind::Comma
    } else if c == ':' {
        TokenKind::Colon
    } else if c == '(' {
        TokenKind::LParen
    } else if c == ')' {
        TokenKind::RParen
    } else if c == '{' {
        TokenKind::LBrace
    } else if c == '}' {
        TokenKind::RBrace
    } else if c == '[' {
        TokenKind::LBracket
    } else if c == ']' {
        TokenKind::RBracket
    } else {
        TokenKind::Unknown
    }
}

/// The characters of `v` from `start` up to `end`.
fn slice_of(v: &Vec<char>, start: usize, end: usize) -> (r: Vec<char>)
    requires
        start <= end <= v.len(),
    ensures
        r@ == v@.subrange(start as int, end as int),
{
    let mut r: Vec<char> = Vec::new();
    let mut i = start;
    while i < end
        invariant
            start <= i <= end,
            end <= v.len(),
            r@ == v@.subrange(start as int, i as int),
        decreases end - i,
    {
        r.push(v[i]);
        i += 1;
        proof {
            assert(r@ =~= v@.subrange(start as int, i as int));
        }
    }
    r
}

impl Lexer {
    /// The characters being read.
    pub closed spec fn source(&self) -> Seq<char> {
        self.input@
    }

    /// The position of the next character to read.
    pub closed spec fn pos(&self) -> int {
        self.position as int
    }

    /// A lexer at the start of `input`.
    pub fn new(input: &str) -> (r: Lexer)
        ensures
            r.source() == input@,
            r.pos() == 0,
    {
        Lexer { input: chars_of(input), position: 0 }
    }

    /// The character at the current position, if any.
    pub fn peek(&self) -> (r: Option<char>)
        ensures
            r == if self.pos() < self.source().len() { Some(self.source()[self.pos()]) } else { None::<char> },
    {
        if self.position < self.input.len() {
            Some(self.input[self.position])
        } else {
            None
        }
    }

    /// Returns the current character, if any, and moves on by one; past the
    /// end of input every position reads as the end.
    pub fn advance(&mut self) -> (r: Option<char>)
        requires
            old(self).pos() < usize::MAX,
        ensures
            final(self).source() == old(self).source(),
            r == if old(self).pos() < old(self).source().len() { Some(old(self).source()[old(self).pos()]) } else { None::<char> },
            final(self).pos() == old(self).pos() + 1,
    {
        let c = self.peek();
        self.position = self.position + 1;
        c
    }

    /// The first position at or after `from` that holds no whitespace.
    fn skip_from(&self, from: usize) -> (r: usize)
        ensures
            r == skip_spaces(self.source(), from as int),
            r >= from,
    {
        let mut i = from;
        while i < self.input.len() && is_space_char(self.input[i])
            invariant
                from <= i,
                skip_spaces(self.source(), from as int) == skip_spaces(self.source(), i as int),
            decreases self.input.len() - i,
        {
            i += 1;
        }
        i
    }

    /// Moves past any whitespace.
    pub fn skip_whitespace(&mut self)
        ensures
            final(self).source() == old(self).source(),
            final(self).pos() == skip_spaces(old(self).source(), old(self).pos()),
    {
        self.position = self.skip_from(self.position);
    }

    /// The token that starts at `from`, after whitespace, and the position
    /// after it.
    fn read_token(&self, from: usize) -> (r: (Token, usize))
        ensures
            ({
                let s = self.source();
                let i = skip_spaces(s, from as int);
                &&& scan(s, i) == (r.0.kind, r.1 as int)
                &&& r.0.text@ == token_text(s, i, r.0.kind, r.1 as int)
            }),
            r.0.kind != TokenKind::EOF ==> r.1 > from,
            r.0.kind == TokenKind::EOF ==> r.1 >= from,
    {
        let ghost s = self.input@;
        let start = self.skip_from(from);
        let len = self.input.len();
        if start >= len {
            return (Token { kind: TokenKind::EOF, text: Vec::new() }, start);
        }
        proof {
            lemma_scans_forward(s, start as int, false);
            lemma_scans_forward(s, start + 1, false);
        }
        let c = self.input[start];
        if c == '=' || c == '<' || c == '>' || c == '!' {
            let two = start + 1 < len && self.input[start + 1] == '=';
            let kind = if c == '=' {
                if two { TokenKind::Eq } else { TokenKind::Assign }
            } else if c == '<' {
                if two { TokenKind::LessEqual } else { TokenKind::LessThan }
            } else if c == '>' {
                if two { TokenKind::GreaterEqual } else { TokenKind::GreaterThan }
            } else {
                if two { TokenKind::Neq } else { TokenKind::Not }
            };
            let next = if two { start + 2 } else { start + 1 };
            (Token { kind, text: slice_of(&self.input, start, next) }, next)
        } else if c == '"' {
            let mut e = start + 1;
            while e < len && self.input[e] != '"'
                invariant
                    start + 1 <= e <= len,
                    len == s.len(),
                    self.input@ == s,
                    quote_end(s, start + 1) == quote_end(s, e as int),
                decreases len - e,
            {
                e += 1;
            }
            let text = slice_of(&self.input, start + 1, e);
            (Token { kind: TokenKind::StrLiteral, text }, if e < len { e + 1 } else { e })
        } else if is_digit_char(c) {
            let mut e = start + 1;
            let mut dot = false;
            while e < len && (is_digit_char(self.input[e]) || (self.input[e] == '.' && !dot))
                invariant
                    start + 1 <= e <= len,
                    len == s.len(),
                    self.input@ == s,
                    number_end(s, start + 1, false) == number_end(s, e as int, dot),
                    number_has_dot(s, start + 1, false) == number_has_dot(s, e as int, dot),
                decreases len - e,
            {
                if self.input[e] == '.' {
                    dot = true;
                }
                e += 1;
            }
            (Token { kind: if dot { TokenKind::Double } else { TokenKind::Number }, text: slice_of(&self.input, start, e) }, e)
        } else if is_alpha_char(c) {
            let mut e = start + 1;
            while e < len && (is_alpha_char(self.input[e]) || is_digit_char(self.input[e]))
                invariant
                    start + 1 <= e <= len,
                    len == s.len(),
                    self.input@ == s,
                    word_end(s, start + 1) == word_end(s, e as int),
                decreases len - e,
            {
                e += 1;
            }
            let text = slice_of(&self.input, start, e);
            (Token { kind: keyword_of(&text), text }, e)
        } else {
            (Token { kind: single_kind_of(c), text: slice_of(&self.input, start, start + 1) }, start + 1)
        }
    }

    /// Reads the next token. At the end of input it returns `EOF`, and again
    /// on every later call.
    pub fn next_token(&mut self) -> (t: Token)
        ensures
            final(self).source() == old(self).source(),
            ({
                let s = old(self).source();
                let i = skip_spaces(s, old(self).pos());
                &&& scan(s, i) == (t.kind, final(self).pos())
                &&& t.text@ == token_text(s, i, t.kind, final(self).pos())
            }),
            t.kind != TokenKind::EOF ==> final(self).pos() > old(self).pos(),
            t.kind == TokenKind::EOF ==> final(self).pos() >= old(self).pos(),
    {
        let (t, next) = self.read_token(self.position);
        self.position = next;
        t
    }

    /// The kind of the token that `next_token` would read, without reading it.
    pub fn peek_kind(&self) -> (k: TokenKind)
        ensures
            k == scan(self.source(), skip_spaces(self.source(), self.pos())).0,
    {
        self.read_token(self.position).0.kind
    }
}

} // verus!
