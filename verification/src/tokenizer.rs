//! A maximal-munch tokenizer for the literal micro-language in which a
//! user writes a D-Bus call's argument list, e.g.
//! `("test", -3.1, {"key": "value"}, [1, 2, 3])`.
//!
//! The input is classified into a flat, ordered sequence of tokens, each
//! carrying a half-open span of character offsets into the source, the
//! source text it covers, and a kind.  On ASCII input — the whole rule set
//! is ASCII — character offsets and byte offsets coincide.
//!
//! The rule set, in priority order: single-character delimiters
//! (`(`, `)`, `[`, `]`, `{`, `}`, `:`, `,`), then quoted strings, then
//! numbers, then whitespace runs.  A quoted string is a pair of matching
//! `"` or `'` quotes around content characters drawn from ASCII letters,
//! digits, `_` and `.`; there are no escape sequences.  A number is an
//! optional `-`, one or more digits, and an optional `.` followed by one
//! or more digits.  Whitespace is a run of one or more spaces; whitespace
//! tokens are always emitted, never filtered — the consumer decides what
//! to do with them.
//!
//! The scanner is longest-match: at each position the window grows while
//! a longer token is still possible and the token emitted is the longest
//! window that matched a rule.  Adjacent characters of one token therefore
//! never split.  At the first position where no token can start, scanning
//! stops with an error carrying the single-character span at that
//! position: an unterminated quote at the end of the input is reported as
//! [`TokenizerErrorKind::UnterminatedLiteral`], anything else as
//! [`TokenizerErrorKind::LexError`].

use vstd::prelude::*;
use vstd::string::StrSliceExecFns;

verus! {

/// A half-open interval `[start, end)` of character offsets into the
/// source text.  An emitted token's span is never empty.
#[derive(Debug, Clone, Copy, PartialEq, Eq, Structural)]
pub struct Span {
    pub start: usize,
    pub end: usize,
}

/// The closed set of token kinds of the micro-language.
#[derive(Debug, Clone, Copy, PartialEq, Eq, Structural)]
pub enum TokenType {
    Number,
    String,
    StructStart,
    StructEnd,
    ArrayStart,
    ArrayEnd,
    DictStart,
    DictEnd,
    DictAssignmentOperator,
    Seperator,
    Whitespace,
}

/// What went wrong: no rule matches at the reported position, or a quote
/// was opened and the input ended before the matching close.
#[derive(Debug, Clone, Copy, PartialEq, Eq, Structural)]
pub enum TokenizerErrorKind {
    LexError,
    UnterminatedLiteral,
}

/// A lexical error: its kind and the single-character span at which
/// scanning failed (for an unterminated literal, the opening quote).
#[derive(Debug, Clone, Copy, PartialEq, Eq, Structural)]
pub struct TokenizerError {
    pub kind: TokenizerErrorKind,
    pub span: Span,
}

impl TokenizerError {
    /// A human-readable description of the error.
    pub fn message(&self) -> (r: &'static str)
        ensures
            self.kind == TokenizerErrorKind::LexError ==> r@ == "no rule matches"@,
            self.kind == TokenizerErrorKind::UnterminatedLiteral ==> r@
                == "unterminated literal"@,
    {
        match self.kind {
            TokenizerErrorKind::LexError => "no rule matches",
            TokenizerErrorKind::UnterminatedLiteral => "unterminated literal",
        }
    }
}

/// A decimal digit `0` to `9`.
pub open spec fn is_digit_char(c: char) -> bool {
    48 <= c as u32 && c as u32 <= 57
}

/// A quote character: `"` or `'`.
pub open spec fn is_quote_char(c: char) -> bool {
    c == '"' || c == '\''
}

/// A character allowed between the quotes of a string token: an ASCII
/// letter, a digit, `_` or `.`.
pub open spec fn is_content_char(c: char) -> bool {
    is_digit_char(c) || (97 <= c as u32 && c as u32 <= 122) || (65 <= c as u32 && c as u32
        <= 90) || c == '_' || c == '.'
}

/// The kind of the single-character delimiter `c`, if it is one.
pub open spec fn spec_delimiter_kind(c: char) -> Option<TokenType> {
    if c == '(' {
        Some(TokenType::StructStart)
    } else if c == ')' {
        Some(TokenType::StructEnd)
    } else if c == '[' {
        Some(TokenType::ArrayStart)
    } else if c == ']' {
        Some(TokenType::ArrayEnd)
    } else if c == '{' {
        Some(TokenType::DictStart)
    } else if c == '}' {
        Some(TokenType::DictEnd)
    } else if c == ':' {
        Some(TokenType::DictAssignmentOperator)
    } else if c == ',' {
        Some(TokenType::Seperator)
    } else {
        None
    }
}

/// One or more digits and nothing else.
pub open spec fn all_digits(w: Seq<char>) -> bool {
    w.len() > 0 && forall|i: int| 0 <= i < w.len() ==> is_digit_char(w[i])
}

/// The unsigned part of a number: digits, optionally followed by `.` and
/// more digits.
pub open spec fn is_unsigned_number(w: Seq<char>) -> bool {
    all_digits(w) || (exists|k: int|
        1 <= k < w.len() - 1 && w[k] == '.' && all_digits(w.take(k)) && all_digits(
            w.skip(k + 1),
        ))
}

/// A complete number token: an optional leading `-`, then digits,
/// optionally `.` and more digits.
pub open spec fn is_number_token(w: Seq<char>) -> bool {
    if w.len() > 0 && w[0] == '-' {
        is_unsigned_number(w.skip(1))
    } else {
        is_unsigned_number(w)
    }
}

/// A complete string token: a quote, content characters, and the same
/// quote again.
pub open spec fn is_string_token(w: Seq<char>) -> bool {
    w.len() >= 2 && is_quote_char(w[0]) && w[w.len() - 1] == w[0] && (forall|i: int|
        1 <= i < w.len() - 1 ==> is_content_char(w[i]))
}

/// A complete whitespace token: one or more spaces.
pub open spec fn is_whitespace_token(w: Seq<char>) -> bool {
    w.len() > 0 && forall|i: int| 0 <= i < w.len() ==> w[i] == ' '
}

/// The rule set in priority order: what kind, if any, the window `w`
/// matches as a complete token.  Earlier rules win, though no two rules
/// accept the same window.
pub open spec fn rule_match(w: Seq<char>) -> Option<TokenType> {
    if w.len() == 1 && spec_delimiter_kind(w[0]) is Some {
        spec_delimiter_kind(w[0])
    } else if is_string_token(w) {
        Some(TokenType::String)
    } else if is_number_token(w) {
        Some(TokenType::Number)
    } else if is_whitespace_token(w) {
        Some(TokenType::Whitespace)
    } else {
        None
    }
}

/// A strict prefix of a number token: `-` alone, digits (with optional
/// sign), or digits ending in a bare `.`.
pub open spec fn is_unsigned_prefix(w: Seq<char>) -> bool {
    all_digits(w) || (w.len() >= 2 && w[w.len() - 1] == '.' && all_digits(
        w.take(w.len() - 1),
    )) || is_unsigned_number(w)
}

/// A window that is, or can grow into, a number token.
pub open spec fn is_number_prefix(w: Seq<char>) -> bool {
    if w.len() == 0 {
        false
    } else if w[0] == '-' {
        w.len() == 1 || is_unsigned_prefix(w.skip(1))
    } else {
        is_unsigned_prefix(w)
    }
}

/// An unclosed string: a quote followed by content characters only.
pub open spec fn is_string_prefix(w: Seq<char>) -> bool {
    w.len() >= 1 && is_quote_char(w[0]) && (forall|i: int|
        1 <= i < w.len() ==> is_content_char(w[i]))
}

/// Whether some strict extension of the window `w` could still match a
/// rule, so that the scanner must keep growing the window before it
/// finalizes a token.
pub open spec fn can_extend(w: Seq<char>) -> bool {
    is_number_prefix(w) || is_string_prefix(w) || is_whitespace_token(w)
}

/// How a window relates to a maximal digit run from its front: `d` is
/// where the run ends, and the number forms are decided by what follows.
proof fn lemma_digit_run_shapes(w: Seq<char>, d: int)
    requires
        0 <= d <= w.len(),
        forall|j: int| 0 <= j < d ==> is_digit_char(w[j]),
        d < w.len() ==> !is_digit_char(w[d]),
    ensures
        is_unsigned_number(w) <==> d > 0 && (d == w.len() || (w[d] == '.' && d < w.len() - 1
            && all_digits(w.skip(d + 1)))),
        is_unsigned_prefix(w) <==> d > 0 && (d == w.len() || (w[d] == '.' && (d == w.len() - 1
            || all_digits(w.skip(d + 1))))),
{
    if d > 0 && d < w.len() && w[d] == '.' && d < w.len() - 1 && all_digits(w.skip(d + 1)) {
        assert(is_unsigned_number(w)) by {
            assert(all_digits(w.take(d))) by {
                assert(forall|j: int| 0 <= j < d ==> w.take(d)[j] == w[j]);
            }
            assert(1 <= d < w.len() - 1 && w[d] == '.' && all_digits(w.take(d)) && all_digits(
                w.skip(d + 1),
            ));
        }
    }
    if is_unsigned_number(w) && !all_digits(w) {
        let k = choose|k: int|
            1 <= k < w.len() - 1 && w[k] == '.' && all_digits(w.take(k)) && all_digits(
                w.skip(k + 1),
            );
        assert(forall|j: int| 0 <= j < k ==> is_digit_char(w[j])) by {
            assert(forall|j: int| 0 <= j < k ==> w[j] == w.take(k)[j]);
        }
        assert(!is_digit_char(w[k]));
        assert(k == d);
        assert(forall|j: int| d + 1 <= j < w.len() ==> is_digit_char(w[j])) by {
            assert(forall|j: int| d + 1 <= j < w.len() ==> w[j] == w.skip(d + 1)[j - (d + 1)]);
        }
    }
    if all_digits(w) {
        assert(d == w.len());
    }
    if d == w.len() && d > 0 {
        assert(all_digits(w));
    }
    if w.len() >= 2 && w[w.len() - 1] == '.' && all_digits(w.take(w.len() - 1)) {
        assert(forall|j: int| 0 <= j < w.len() - 1 ==> is_digit_char(w[j])) by {
            assert(forall|j: int| 0 <= j < w.len() - 1 ==> w[j] == w.take(w.len() - 1)[j]);
        }
        assert(d == w.len() - 1);
    }
    if d > 0 && d == w.len() - 1 && w[d] == '.' {
        assert(w.len() >= 2 && w[w.len() - 1] == '.' && all_digits(w.take(w.len() - 1))) by {
            assert(forall|j: int| 0 <= j < w.len() - 1 ==> w.take(w.len() - 1)[j] == w[j]);
        }
    }
}

/// The tokenizer: drives a scanning cursor over the source text against
/// the fixed, priority-ordered rule set described in the module
/// documentation.  An instance is immutable and may be reused across
/// inputs.
pub struct Tokenizer {}

impl Tokenizer {
    /// Builds a tokenizer for the fixed rule set.
    pub fn new() -> (r: Tokenizer) {
        Tokenizer {}
    }

    /// The kind of the single-character delimiter `c`, if it is one.
    pub fn delimiter_kind(&self, c: char) -> (r: Option<TokenType>)
        ensures
            r == spec_delimiter_kind(c),
    {
        if c == '(' {
            Some(TokenType::StructStart)
        } else if c == ')' {
            Some(TokenType::StructEnd)
        } else if c == '[' {
            Some(TokenType::ArrayStart)
        } else if c == ']' {
            Some(TokenType::ArrayEnd)
        } else if c == '{' {
            Some(TokenType::DictStart)
        } else if c == '}' {
            Some(TokenType::DictEnd)
        } else if c == ':' {
            Some(TokenType::DictAssignmentOperator)
        } else if c == ',' {
            Some(TokenType::Seperator)
        } else {
            None
        }
    }

    /// Whether the whole window is a string token.
    pub fn matches_string(&self, slice: &str) -> (r: bool)
        ensures
            r == is_string_token(slice@),
    {
        let n = slice.unicode_len();
        if n < 2 {
            return false;
        }
        let c0 = slice.get_char(0);
        if !(c0 == '"' || c0 == '\'') {
            return false;
        }
        if slice.get_char(n - 1) != c0 {
            return false;
        }
        let mut i: usize = 1;
        while i < n - 1
            invariant
                2 <= n == slice@.len(),
                1 <= i <= n - 1,
                forall|j: int| 1 <= j < i ==> is_content_char(slice@[j]),
            decreases n - 1 - i,
        {
            let c = slice.get_char(i);
            if !content_char(c) {
                return false;
            }
            i += 1;
        }
        true
    }

    /// Whether the whole window is a number token.
    pub fn matches_number(&self, slice: &str) -> (r: bool)
        ensures
            r == is_number_token(slice@),
    {
        let n = slice.unicode_len();
        if n == 0 {
            return false;
        }
        let from: usize = if slice.get_char(0) == '-' {
            1
        } else {
            0
        };
        let ghost sub = slice@.skip(from as int);
        let d1 = digit_run_end(slice, from);
        proof {
            if from == 0 {
                assert(sub =~= slice@);
            }
            assert(forall|j: int| 0 <= j < d1 - from ==> sub[j] == slice@[j + from]);
            assert(d1 < n ==> !is_digit_char(sub[d1 - from]));
            lemma_digit_run_shapes(sub, d1 - from);
        }
        if d1 == from {
            return false;
        }
        if d1 == n {
            return true;
        }
        if slice.get_char(d1) != '.' {
            return false;
        }
        if d1 + 1 == n {
            return false;
        }
        let d2 = digit_run_end(slice, d1 + 1);
        proof {
            let tail = sub.skip(d1 - from + 1);
            assert(forall|j: int| 0 <= j < tail.len() ==> tail[j] == slice@[j + d1 + 1]);
            if d2 == n && d2 > d1 + 1 {
                assert(all_digits(tail));
            }
            if d2 < n {
                assert(!is_digit_char(tail[d2 - d1 - 1]));
                assert(!all_digits(tail));
            }
        }
        if d2 == d1 + 1 {
            return false;
        }
        d2 == n
    }

    /// Whether the whole window is a whitespace token.
    pub fn matches_whitespace(&self, slice: &str) -> (r: bool)
        ensures
            r == is_whitespace_token(slice@),
    {
        let n = slice.unicode_len();
        if n == 0 {
            return false;
        }
        let mut i: usize = 0;
        while i < n
            invariant
                n == slice@.len(),
                0 <= i <= n,
                forall|j: int| 0 <= j < i ==> slice@[j] == ' ',
            decreases n - i,
        {
            if slice.get_char(i) != ' ' {
                return false;
            }
            i += 1;
        }
        true
    }

    /// Classifies a complete window against the rule set, earlier rules
    /// winning; `None` when no rule accepts the window as it stands.
    pub fn match_token(&self, slice: &str) -> (r: Option<TokenType>)
        ensures
            r == rule_match(slice@),
    {
        let n = slice.unicode_len();
        if n == 1 {
            let d = self.delimiter_kind(slice.get_char(0));
            if d.is_some() {
                return d;
            }
        }
        if self.matches_string(slice) {
            return Some(TokenType::String);
        }
        if self.matches_number(slice) {
            return Some(TokenType::Number);
        }
        if self.matches_whitespace(slice) {
            return Some(TokenType::Whitespace);
        }
        None
    }

    /// Whether the window could still grow into a (longer) token, i.e.
    /// is a number prefix, an unclosed string, or whitespace.
    pub fn could_extend(&self, slice: &str) -> (r: bool)
        ensures
            r == can_extend(slice@),
    {
        self.matches_number_prefix(slice) || self.matches_string_prefix(slice)
            || self.matches_whitespace(slice)
    }

    /// Whether the window is a strict or complete prefix of a number.
    pub fn matches_number_prefix(&self, slice: &str) -> (r: bool)
        ensures
            r == is_number_prefix(slice@),
    {
        let n = slice.unicode_len();
        if n == 0 {
            return false;
        }
        let minus = slice.get_char(0) == '-';
        if minus && n == 1 {
            return true;
        }
        let from: usize = if minus {
            1
        } else {
            0
        };
        let ghost sub = slice@.skip(from as int);
        let d1 = digit_run_end(slice, from);
        proof {
            if from == 0 {
                assert(sub =~= slice@);
            }
            assert(forall|j: int| 0 <= j < d1 - from ==> sub[j] == slice@[j + from]);
            assert(d1 < n ==> !is_digit_char(sub[d1 - from]));
            lemma_digit_run_shapes(sub, d1 - from);
        }
        if d1 == from {
            return false;
        }
        if d1 == n {
            return true;
        }
        if slice.get_char(d1) != '.' {
            return false;
        }
        if d1 + 1 == n {
            return true;
        }
        let d2 = digit_run_end(slice, d1 + 1);
        proof {
            let tail = sub.skip(d1 - from + 1);
            assert(forall|j: int| 0 <= j < tail.len() ==> tail[j] == slice@[j + d1 + 1]);
            if d2 == n && d2 > d1 + 1 {
                assert(all_digits(tail));
            }
            if d2 < n {
                assert(!is_digit_char(tail[d2 - d1 - 1]));
                assert(!all_digits(tail));
            }
        }
        if d2 == d1 + 1 {
            return false;
        }
        d2 == n
    }

    /// Whether the window is an unclosed string literal.
    pub fn matches_string_prefix(&self, slice: &str) -> (r: bool)
        ensures
            r == is_string_prefix(slice@),
    {
        let n = slice.unicode_len();
        if n == 0 {
            return false;
        }
        let c0 = slice.get_char(0);
        if !(c0 == '"' || c0 == '\'') {
            return false;
        }
        let mut i: usize = 1;
        while i < n
            invariant
                1 <= n == slice@.len(),
                1 <= i <= n,
                forall|j: int| 1 <= j < i ==> is_content_char(slice@[j]),
            decreases n - i,
        {
            let c = slice.get_char(i);
            if !content_char(c) {
                return false;
            }
            i += 1;
        }
        true
    }
}

/// Whether `c` may stand between the quotes of a string token.
fn content_char(c: char) -> (r: bool)
    ensures
        r == is_content_char(c),
{
    let u = c as u32;
    (48 <= u && u <= 57) || (97 <= u && u <= 122) || (65 <= u && u <= 90) || c == '_' || c == '.'
}

/// The end of the run of digits that starts at `from` in `slice`.
fn digit_run_end(slice: &str, from: usize) -> (end: usize)
    requires
        from <= slice@.len(),
    ensures
        from <= end <= slice@.len(),
        forall|j: int| from <= j < end ==> is_digit_char(slice@[j]),
        end < slice@.len() ==> !is_digit_char(slice@[end as int]),
    decreases slice@.len() - from,
{
    let n = slice.unicode_len();
    let mut i: usize = from;
    loop
        invariant_except_break
            from <= i <= n,
            n == slice@.len(),
            forall|j: int| from <= j < i ==> is_digit_char(slice@[j]),
        ensures
            from <= i <= n,
            forall|j: int| from <= j < i ==> is_digit_char(slice@[j]),
            i < n ==> !is_digit_char(slice@[i as int]),
        decreases n - i,
    {
        if i == n {
            break;
        }
        let c = slice.get_char(i);
        let u = c as u32;
        if !(48 <= u && u <= 57) {
            break;
        }
        i += 1;
    }
    i
}

/// Character-by-character string comparison, so that equality of token
/// contents is verified rather than assumed.
pub fn str_eq(a: &str, b: &str) -> (r: bool)
    ensures
        r == (a@ == b@),
{
    let na = a.unicode_len();
    let nb = b.unicode_len();
    if na != nb {
        return false;
    }
    let mut i: usize = 0;
    while i < na
        invariant
            na == a@.len() == b@.len(),
            0 <= i <= na,
            forall|j: int| 0 <= j < i ==> a@[j] == b@[j],
        decreases na - i,
    {
        if a.get_char(i) != b.get_char(i) {
            return false;
        }
        i += 1;
    }
    proof {
        assert(a@ =~= b@);
    }
    true
}

/// One classified run of source text: its span, the text it covers —
/// always exactly `source[span.start..span.end]` — and its kind.
#[derive(Debug, Clone, Copy)]
pub struct Token<'a> {
    pub span: Span,
    pub content: &'a str,
    pub token_type: TokenType,
}

/// Value equality of tokens: equal spans, equal content text, equal kind.
pub open spec fn token_view_eq(a: Token, b: Token) -> bool {
    a.span == b.span && a.content@ == b.content@ && a.token_type == b.token_type
}

impl<'a> PartialEq for Token<'a> {
    fn eq(&self, other: &Self) -> (r: bool) {
        self.span == other.span && str_eq(self.content, other.content) && self.token_type
            == other.token_type
    }
}

impl<'a> vstd::std_specs::cmp::PartialEqSpecImpl for Token<'a> {
    open spec fn obeys_eq_spec() -> bool {
        true
    }

    open spec fn eq_spec(&self, other: &Self) -> bool {
        token_view_eq(*self, *other)
    }
}

impl<'a> Token<'a> {
    /// Builds the token for the cursor's current window, classified as
    /// `token_type`.
    pub fn from_cursor(cursor: &Cursor<'a>, token_type: TokenType) -> (t: Token<'a>)
        requires
            cursor.start < cursor.end <= cursor.subject@.len(),
        ensures
            t.span.start == cursor.start,
            t.span.end == cursor.end,
            t.content@ == cursor.subject@.subrange(cursor.start as int, cursor.end as int),
            t.token_type == token_type,
    {
        let content = match cursor.slice() {
            Some(s) => s,
            None => {
                proof {
                    assert(false);
                }
                ""
            },
        };
        Token { span: Span { start: cursor.start, end: cursor.end }, content, token_type }
    }
}

/// The ordered output of one tokenization call: tokens in source order,
/// contiguous and non-overlapping.
#[derive(Debug)]
pub struct TokenStream<'a> {
    pub tokens: Vec<Token<'a>>,
}

impl<'a> PartialEq for TokenStream<'a> {
    fn eq(&self, other: &Self) -> (r: bool) {
        if self.tokens.len() != other.tokens.len() {
            return false;
        }
        let mut i: usize = 0;
        while i < self.tokens.len()
            invariant_except_break
                self.tokens@.len() == other.tokens@.len(),
                0 <= i <= self.tokens@.len(),
                forall|j: int|
                    0 <= j < i ==> token_view_eq(self.tokens@[j], other.tokens@[j]),
            ensures
                self.tokens@.len() == other.tokens@.len(),
                (i == self.tokens@.len() && forall|j: int|
                    0 <= j < i ==> token_view_eq(self.tokens@[j], other.tokens@[j])) || (i
                    < self.tokens@.len() && !token_view_eq(
                    self.tokens@[i as int],
                    other.tokens@[i as int],
                )),
            decreases self.tokens@.len() - i,
        {
            if !(&self.tokens[i]).eq(&other.tokens[i]) {
                break ;
            }
            i += 1;
        }
        i == self.tokens.len()
    }
}

impl<'a> vstd::std_specs::cmp::PartialEqSpecImpl for TokenStream<'a> {
    open spec fn obeys_eq_spec() -> bool {
        true
    }

    open spec fn eq_spec(&self, other: &Self) -> bool {
        self.tokens@.len() == other.tokens@.len() && forall|i: int|
            0 <= i < self.tokens@.len() ==> token_view_eq(self.tokens@[i], other.tokens@[i])
    }
}

impl<'a> Default for TokenStream<'a> {
    /// An empty stream.
    fn default() -> (r: Self)
        ensures
            r.tokens@.len() == 0,
    {
        Self { tokens: Vec::new() }
    }
}

impl<'a> TokenStream<'a> {
    /// A stream holding exactly the given tokens.
    pub fn new(tokens: Vec<Token<'a>>) -> (r: Self)
        ensures
            r.tokens == tokens,
    {
        Self { tokens }
    }

    /// Appends one token at the end of the stream.
    pub fn push(&mut self, token: Token<'a>)
        ensures
            final(self).tokens@ == old(self).tokens@.push(token),
    {
        self.tokens.push(token);
    }
}

/// A scanning window `[start, end)` over an immutable source text.  The
/// tokenizer grows the window one character at a time, backtracks it to
/// the longest match, and advances it past each emitted token.
pub struct Cursor<'a> {
    pub start: usize,
    pub end: usize,
    pub subject: &'a str,
}

impl<'a> Cursor<'a> {
    /// The window sits inside the subject.
    pub open spec fn wf(&self) -> bool {
        self.start <= self.end <= self.subject@.len()
    }

    /// A cursor over `subject`, with the window at the smallest
    /// non-empty size (one character), or empty when the subject is.
    pub fn new(subject: &'a str) -> (c: Cursor<'a>)
        ensures
            c.subject == subject,
            c.start == 0,
            c.end == if subject@.len() == 0 {
                0int
            } else {
                1int
            },
            c.wf(),
    {
        let n = subject.unicode_len();
        Cursor { start: 0, end: if n == 0 { 0 } else { 1 }, subject }
    }

    /// The text inside the window, or `None` for an empty or
    /// out-of-range window.  Total: never panics.
    pub fn slice(&self) -> (r: Option<&'a str>)
        ensures
            (match r {
                Some(s) => self.start < self.end <= self.subject@.len() && s@
                    == self.subject@.subrange(self.start as int, self.end as int),
                None => !(self.start < self.end && self.end <= self.subject@.len()),
            }),
    {
        if self.start < self.end && self.end <= self.subject.unicode_len() {
            Some(self.subject.substring_char(self.start, self.end))
        } else {
            None
        }
    }

    /// Extends the window's end by one character; no-op at the end of
    /// the subject.
    pub fn grow(&mut self)
        ensures
            final(self).subject == old(self).subject,
            final(self).start == old(self).start,
            final(self).end == if old(self).end < old(self).subject@.len() {
                old(self).end + 1
            } else {
                old(self).end as int
            },
    {
        if self.end < self.subject.unicode_len() {
            self.end = self.end + 1;
        }
    }

    /// Backtracks the window's end to `new_end`, the longest match found.
    pub fn retract(&mut self, new_end: usize)
        requires
            old(self).start <= new_end <= old(self).end,
        ensures
            final(self).subject == old(self).subject,
            final(self).start == old(self).start,
            final(self).end == new_end,
    {
        self.end = new_end;
    }

    /// Starts the next candidate token right after the current window:
    /// the new window is `[end, end + 1)`, or empty at the end of the
    /// subject.
    pub fn advance(&mut self)
        ensures
            final(self).subject == old(self).subject,
            final(self).start == old(self).end,
            final(self).end == if old(self).end < old(self).subject@.len() {
                old(self).end + 1
            } else {
                old(self).end as int
            },
    {
        self.start = self.end;
        if self.end < self.subject.unicode_len() {
            self.end = self.end + 1;
        }
    }

    /// True when the whole subject has been consumed.
    pub fn exhausted(&self) -> (r: bool)
        ensures
            r == (self.start >= self.subject@.len()),
    {
        self.start >= self.subject.unicode_len()
    }
}

/// The ghost image of one emitted token: where it starts and ends in the
/// source, and its kind.
pub ghost struct GhostToken {
    pub start: int,
    pub end: int,
    pub kind: TokenType,
}

/// The ghost image of a lexical error: its kind and the position at
/// which scanning failed.
pub ghost struct GhostError {
    pub kind: TokenizerErrorKind,
    pub at: int,
}

/// The largest window end `e` in `(p, bound]` such that `[p, e)` matches
/// a rule, searched from `bound` downward, together with the matching
/// kind.
pub open spec fn longest_from(s: Seq<char>, p: int, bound: int) -> Option<(int, TokenType)>
    decreases bound - p,
{
    if bound <= p {
        None
    } else {
        match rule_match(s.subrange(p, bound)) {
            Some(k) => Some((bound, k)),
            None => longest_from(s, p, bound - 1),
        }
    }
}

/// The longest match at position `p`: the maximal-munch token the
/// scanner emits there, if any window starting at `p` matches at all.
pub open spec fn longest_match(s: Seq<char>, p: int) -> Option<(int, TokenType)> {
    longest_from(s, p, s.len() as int)
}

/// The kind of error reported at a position where no window matches: an
/// unterminated literal when a quote opens there and the rest of the
/// input never stops being extendable, otherwise a plain lexical error.
pub open spec fn spec_error_kind(s: Seq<char>, p: int) -> TokenizerErrorKind {
    if is_quote_char(s[p]) && can_extend(s.subrange(p, s.len() as int)) {
        TokenizerErrorKind::UnterminatedLiteral
    } else {
        TokenizerErrorKind::LexError
    }
}

/// The mathematical model of tokenization from position `p` on: emit the
/// longest match, continue after it, or stop with an error at the first
/// position where nothing matches.
pub open spec fn spec_tokenize_from(s: Seq<char>, p: int) -> Result<Seq<GhostToken>, GhostError>
    decreases s.len() - p,
    when 0 <= p <= s.len()
{
    if p >= s.len() {
        Ok(Seq::empty())
    } else {
        match longest_match(s, p) {
            // the range guard keeps the recursion well-founded; a
            // longest match always lies in (p, s.len()], so the other
            // branch is never taken
            Some((e, k)) => if p < e <= s.len() {
                match spec_tokenize_from(s, e) {
                    Ok(rest) => Ok(seq![GhostToken { start: p, end: e, kind: k }] + rest),
                    Err(err) => Err(err),
                }
            } else {
                Err(GhostError { kind: TokenizerErrorKind::LexError, at: p })
            },
            None => Err(GhostError { kind: spec_error_kind(s, p), at: p }),
        }
    }
}

/// The mathematical model of tokenizing the whole source `s`.
pub open spec fn spec_tokenize(s: Seq<char>) -> Result<Seq<GhostToken>, GhostError> {
    spec_tokenize_from(s, 0)
}

/// An emitted token agrees with its ghost image: same span, same kind,
/// and its content is exactly the source text under the span.
pub open spec fn token_matches(t: Token, g: GhostToken, s: Seq<char>) -> bool {
    t.span.start == g.start && t.span.end == g.end && t.token_type == g.kind && t.content@
        == s.subrange(g.start, g.end)
}

/// A stream agrees with a ghost token sequence element for element.
pub open spec fn stream_matches(toks: Seq<Token>, gs: Seq<GhostToken>, s: Seq<char>) -> bool {
    toks.len() == gs.len() && forall|i: int| 0 <= i < toks.len() ==> token_matches(
        toks[i],
        gs[i],
        s,
    )
}

/// What `longest_from` returns is really the longest match: it matches,
/// and no longer window up to the bound does.
proof fn lemma_longest_from(s: Seq<char>, p: int, bound: int)
    requires
        0 <= p,
        bound <= s.len(),
    ensures
        (match longest_from(s, p, bound) {
            Some((e, k)) => p < e <= bound && rule_match(s.subrange(p, e)) == Some(k) && (
            forall|e2: int| e < e2 <= bound ==> rule_match(s.subrange(p, e2)) is None),
            None => forall|e2: int| p < e2 <= bound ==> rule_match(s.subrange(p, e2)) is None,
        }),
    decreases bound - p,
{
    if bound <= p {
    } else {
        if rule_match(s.subrange(p, bound)) is Some {
        } else {
            lemma_longest_from(s, p, bound - 1);
        }
    }
}

/// Any nonempty strict take of an unsigned-number prefix is again an
/// unsigned-number prefix.
proof fn lemma_unsigned_prefix_take(u: Seq<char>, m: int)
    requires
        is_unsigned_prefix(u),
        1 <= m <= u.len(),
    ensures
        is_unsigned_prefix(u.take(m)),
{
    let v = u.take(m);
    assert(forall|i: int| 0 <= i < m ==> v[i] == u[i]);
    if all_digits(u) {
        assert(all_digits(v));
    } else if u.len() >= 2 && u[u.len() - 1] == '.' && all_digits(u.take(u.len() - 1)) {
        if m == u.len() {
            assert(v =~= u);
        } else {
            assert(forall|i: int| 0 <= i < u.len() - 1 ==> is_digit_char(u[i])) by {
                assert(forall|i: int| 0 <= i < u.len() - 1 ==> u[i] == u.take(u.len() - 1)[i]);
            }
            assert(all_digits(v));
        }
    } else {
        let k = choose|k: int|
            1 <= k < u.len() - 1 && u[k] == '.' && all_digits(u.take(k)) && all_digits(
                u.skip(k + 1),
            );
        assert(forall|i: int| 0 <= i < k ==> is_digit_char(u[i])) by {
            assert(forall|i: int| 0 <= i < k ==> u[i] == u.take(k)[i]);
        }
        if m <= k {
            assert(all_digits(v));
        } else if m == k + 1 {
            assert(v.len() >= 2 && v[v.len() - 1] == '.' && all_digits(v.take(v.len() - 1)))
                by {
                assert(v[v.len() - 1] == u[k]);
                assert(v.take(v.len() - 1) =~= u.take(k));
            }
        } else {
            assert(is_unsigned_number(v)) by {
                assert(v.take(k) =~= u.take(k));
                assert(all_digits(v.skip(k + 1))) by {
                    assert(v.skip(k + 1).len() > 0);
                    assert(forall|i: int|
                        0 <= i < v.skip(k + 1).len() ==> #[trigger] v.skip(k + 1)[i] == u.skip(
                            k + 1,
                        )[i]);
                }
                assert(1 <= k < v.len() - 1 && v[k] == '.' && all_digits(v.take(k))
                    && all_digits(v.skip(k + 1)));
            }
        }
    }
}

/// Every nonempty strict prefix of a window that matches a rule, or that
/// could still grow into one, is itself still extendable.  This is what
/// lets the scanner stop for good the moment a window stops being
/// extendable.
proof fn lemma_viability_prefix(w: Seq<char>, m: int)
    requires
        1 <= m < w.len(),
        rule_match(w) is Some || can_extend(w),
    ensures
        can_extend(w.take(m)),
{
    let v = w.take(m);
    assert(forall|i: int| 0 <= i < m ==> v[i] == w[i]);
    if is_string_token(w) || is_string_prefix(w) {
        assert(is_string_prefix(v)) by {
            assert(v[0] == w[0]);
            assert(forall|i: int| 1 <= i < m ==> is_content_char(v[i]));
        }
    } else if is_number_token(w) || is_number_prefix(w) {
        if w[0] == '-' {
            if m == 1 {
                assert(is_number_prefix(v));
            } else {
                let u = w.skip(1);
                assert(is_unsigned_prefix(u));
                lemma_unsigned_prefix_take(u, m - 1);
                assert(v.skip(1) =~= u.take(m - 1));
                assert(is_number_prefix(v));
            }
        } else {
            assert(is_unsigned_prefix(w));
            lemma_unsigned_prefix_take(w, m);
            assert(is_number_prefix(v));
        }
    } else if is_whitespace_token(w) {
        assert(is_whitespace_token(v));
    } else {
        assert(w.len() == 1 && spec_delimiter_kind(w[0]) is Some);
        assert(false);
    }
}

impl Tokenizer {
    /// Tokenizes the whole source: returns the complete ordered token
    /// stream exactly as the mathematical model [`spec_tokenize`]
    /// prescribes, or the error the model prescribes at the first
    /// position where no token can be scanned.
    pub fn tokenize<'a>(&self, sub: &'a str) -> (r: Result<TokenStream<'a>, TokenizerError>)
        ensures
            (match r {
                Ok(stream) => spec_tokenize(sub@) matches Ok(model) && stream_matches(
                    stream.tokens@,
                    model,
                    sub@,
                ),
                Err(err) => spec_tokenize(sub@) matches Err(ge) && err.kind == ge.kind
                    && err.span.start == ge.at && err.span.end == ge.at + 1,
            }),
    {
        let ghost s = sub@;
        let n = sub.unicode_len();
        let mut cursor = Cursor::new(sub);
        let mut stream = TokenStream::default();
        let ghost mut gdone: Seq<GhostToken> = Seq::empty();
        proof {
            if spec_tokenize_from(s, 0) is Ok {
                assert(gdone + spec_tokenize_from(s, 0)->Ok_0 =~= spec_tokenize_from(s, 0)->Ok_0);
            }
        }
        while !cursor.exhausted()
            invariant
                cursor.subject == sub,
                s == sub@,
                n == s.len(),
                cursor.wf(),
                cursor.start < n ==> cursor.end == cursor.start + 1,
                stream_matches(stream.tokens@, gdone, s),
                continues(s, gdone, cursor.start as int),
            decreases n - cursor.start,
        {
            let ghost p = cursor.start as int;
            let mut best_end: usize = 0;
            let mut best_kind = TokenType::Number;
            let mut found = false;
            let mut hit_end = false;
            loop
                invariant_except_break
                    cursor.subject == sub,
                    s == sub@,
                    n == s.len(),
                    cursor.start == p,
                    0 <= p < n,
                    p < cursor.end <= n,
                    hit_end == false,
                    found ==> p < best_end <= cursor.end && rule_match(
                        s.subrange(p, best_end as int),
                    ) == Some(best_kind),
                    found ==> forall|e2: int|
                        best_end < e2 < cursor.end ==> rule_match(s.subrange(p, e2)) is None,
                    !found ==> forall|e2: int|
                        p < e2 < cursor.end ==> rule_match(s.subrange(p, e2)) is None,
                ensures
                    cursor.subject == sub,
                    cursor.start == p,
                    p < cursor.end <= n,
                    found ==> p < best_end <= cursor.end && rule_match(
                        s.subrange(p, best_end as int),
                    ) == Some(best_kind),
                    found ==> forall|e2: int|
                        best_end < e2 <= cursor.end ==> rule_match(s.subrange(p, e2)) is None,
                    !found ==> forall|e2: int|
                        p < e2 <= cursor.end ==> rule_match(s.subrange(p, e2)) is None,
                    hit_end ==> cursor.end == n && can_extend(s.subrange(p, n as int)),
                    !hit_end ==> !can_extend(s.subrange(p, cursor.end as int)),
                decreases n - cursor.end,
            {
                let w = match cursor.slice() {
                    Some(w) => w,
                    None => {
                        proof {
                            assert(false);
                        }
                        ""
                    },
                };
                match self.match_token(w) {
                    Some(k) => {
                        best_end = cursor.end;
                        best_kind = k;
                        found = true;
                    },
                    None => {},
                }
                if !self.could_extend(w) {
                    break ;
                }
                if cursor.end == n {
                    hit_end = true;
                    break ;
                }
                cursor.grow();
            }
            proof {
                if !hit_end && cursor.end < n {
                    assert forall|e2: int|
                        cursor.end < e2 <= n implies rule_match(s.subrange(p, e2)) is None by {
                        if rule_match(s.subrange(p, e2)) is Some {
                            lemma_viability_prefix(s.subrange(p, e2), cursor.end - p);
                            assert(s.subrange(p, e2).take(cursor.end - p) =~= s.subrange(
                                p,
                                cursor.end as int,
                            ));
                        }
                    }
                }
                lemma_longest_from(s, p, n as int);
            }
            if found {
                proof {
                    assert(longest_match(s, p) == Some((best_end as int, best_kind)));
                }
                cursor.retract(best_end);
                let token = Token::from_cursor(&cursor, best_kind);
                stream.push(token);
                proof {
                    let g = GhostToken { start: p, end: best_end as int, kind: best_kind };
                    let prev = gdone;
                    gdone = gdone.push(g);
                    assert(spec_tokenize_from(s, p) == (match spec_tokenize_from(
                        s,
                        best_end as int,
                    ) {
                        Ok(rest) => Ok::<Seq<GhostToken>, GhostError>(seq![g] + rest),
                        Err(err) => Err::<Seq<GhostToken>, GhostError>(err),
                    }));
                    match spec_tokenize_from(s, best_end as int) {
                        Ok(rest) => {
                            assert(prev + (seq![g] + rest) =~= gdone + rest);
                        },
                        Err(_) => {},
                    }
                }
                cursor.advance();
            } else {
                let c0 = sub.get_char(cursor.start);
                let kind = if hit_end && (c0 == '"' || c0 == '\'') {
                    TokenizerErrorKind::UnterminatedLiteral
                } else {
                    TokenizerErrorKind::LexError
                };
                proof {
                    assert(longest_match(s, p) is None);
                    if !hit_end && can_extend(s.subrange(p, n as int)) && cursor.end < n {
                        lemma_viability_prefix(s.subrange(p, n as int), cursor.end - p);
                        assert(s.subrange(p, n as int).take(cursor.end - p) =~= s.subrange(
                            p,
                            cursor.end as int,
                        ));
                    }
                    assert(kind == spec_error_kind(s, p));
                }
                let start = cursor.start;
                return Err(TokenizerError { kind, span: Span { start, end: start + 1 } });
            }
        }
        proof {
            assert(spec_tokenize_from(s, cursor.start as int) == Ok::<
                Seq<GhostToken>,
                GhostError,
            >(Seq::empty()));
            assert(gdone + Seq::<GhostToken>::empty() =~= gdone);
        }
        Ok(stream)
    }
}

/// Tokenizing the part of `s` from `p` on and prepending the already
/// emitted tokens `done` yields exactly what tokenizing all of `s`
/// yields: the scanner's loop invariant.
pub open spec fn continues(s: Seq<char>, done: Seq<GhostToken>, p: int) -> bool {
    match spec_tokenize_from(s, p) {
        Ok(rest) => spec_tokenize(s) == Ok::<Seq<GhostToken>, GhostError>(done + rest),
        Err(e) => spec_tokenize(s) == Err::<Seq<GhostToken>, GhostError>(e),
    }
}

/// The token contents of a stream, concatenated in order.
pub open spec fn concat_contents(toks: Seq<Token>) -> Seq<char>
    decreases toks.len(),
{
    if toks.len() == 0 {
        Seq::empty()
    } else {
        toks[0].content@ + concat_contents(toks.skip(1))
    }
}

/// The spans the model emits from position `p` on are non-empty,
/// contiguous, and cover `[p, s.len())` exactly.
proof fn lemma_model_spans(s: Seq<char>, p: int, gs: Seq<GhostToken>)
    requires
        0 <= p <= s.len(),
        spec_tokenize_from(s, p) == Ok::<Seq<GhostToken>, GhostError>(gs),
    ensures
        forall|i: int| 0 <= i < gs.len() ==> (#[trigger] gs[i]).start < gs[i].end,
        forall|i: int, j: int|
            0 <= i && j == i + 1 && j < gs.len() ==> (#[trigger] gs[i]).end == (
            #[trigger] gs[j]).start,
        gs.len() > 0 ==> gs[0].start == p && gs[gs.len() - 1].end == s.len(),
        gs.len() == 0 ==> p == s.len(),
        forall|i: int|
            0 <= i < gs.len() ==> p <= (#[trigger] gs[i]).start && gs[i].end <= s.len(),
    decreases s.len() - p,
{
    if p >= s.len() {
    } else {
        let (e, k) = longest_match(s, p)->Some_0;
        assert(p < e <= s.len()) by {
            lemma_longest_from(s, p, s.len() as int);
        }
        let rest = spec_tokenize_from(s, e)->Ok_0;
        assert(spec_tokenize_from(s, e) == Ok::<Seq<GhostToken>, GhostError>(rest));
        lemma_model_spans(s, e, rest);
        assert(gs == seq![GhostToken { start: p, end: e, kind: k }] + rest);
        assert(gs[0].start == p && gs[0].end == e);
        assert(forall|i: int| 1 <= i < gs.len() ==> gs[i] == rest[i - 1]);
        assert forall|i: int| 0 <= i < gs.len() implies (#[trigger] gs[i]).start < gs[i].end by {
            if i > 0 {
                assert(gs[i] == rest[i - 1]);
            }
        }
        assert forall|i: int, j: int|
            0 <= i && j == i + 1 && j < gs.len() implies (#[trigger] gs[i]).end == (
        #[trigger] gs[j]).start by {
            if i == 0 {
                if rest.len() > 0 {
                    assert(gs[1] == rest[0]);
                    assert(rest[0].start == e);
                } else {
                    assert(gs.len() == 1);
                }
            } else {
                assert(gs[i] == rest[i - 1]);
                assert(gs[i + 1] == rest[i]);
            }
        }
        assert forall|i: int|
            0 <= i < gs.len() implies p <= (#[trigger] gs[i]).start && gs[i].end
            <= s.len() by {
            if i > 0 {
                assert(gs[i] == rest[i - 1]);
            }
        }
        if rest.len() > 0 {
            assert(gs[gs.len() - 1] == rest[rest.len() - 1]);
        }
    }
}

/// The contents of tokens that agree with the model from `p` on
/// concatenate to exactly the source text from `p` on.
proof fn lemma_concat_cover(toks: Seq<Token>, s: Seq<char>, p: int)
    requires
        0 <= p <= s.len(),
        spec_tokenize_from(s, p) is Ok,
        stream_matches(toks, spec_tokenize_from(s, p)->Ok_0, s),
    ensures
        concat_contents(toks) == s.subrange(p, s.len() as int),
    decreases s.len() - p,
{
    let gs = spec_tokenize_from(s, p)->Ok_0;
    if p >= s.len() {
        assert(toks.len() == 0);
        assert(concat_contents(toks) =~= s.subrange(p, s.len() as int));
    } else {
        let (e, k) = longest_match(s, p)->Some_0;
        let rest = spec_tokenize_from(s, e)->Ok_0;
        assert(gs == seq![GhostToken { start: p, end: e, kind: k }] + rest);
        assert(gs.skip(1) =~= rest);
        assert(stream_matches(toks.skip(1), rest, s)) by {
            assert(forall|i: int| 0 <= i < toks.len() - 1 ==> toks.skip(1)[i] == toks[i + 1]);
            assert(forall|i: int|
                0 <= i < toks.len() - 1 ==> token_matches(
                    #[trigger] toks.skip(1)[i],
                    rest[i],
                    s,
                ));
        }
        lemma_concat_cover(toks.skip(1), s, e);
        assert(token_matches(toks[0], gs[0], s));
        assert(concat_contents(toks) == toks[0].content@ + concat_contents(toks.skip(1)));
        assert(s.subrange(p, e) + s.subrange(e, s.len() as int) =~= s.subrange(
            p,
            s.len() as int,
        ));
    }
}

/// Round-trip law: for any input that tokenizes successfully,
/// concatenating the contents of the emitted tokens in order reproduces
/// the input exactly.
pub proof fn lemma_round_trip(stream: TokenStream, s: Seq<char>)
    requires
        spec_tokenize(s) is Ok,
        stream_matches(stream.tokens@, spec_tokenize(s)->Ok_0, s),
    ensures
        concat_contents(stream.tokens@) == s,
{
    lemma_concat_cover(stream.tokens@, s, 0);
    assert(s.subrange(0, s.len() as int) =~= s);
}

/// No-backtrack-leak law: every emitted token's span is non-empty, and
/// the spans across the stream are contiguous and non-overlapping —
/// each token ends exactly where the next one starts, the first starts
/// at offset zero and the last ends at the end of the input.
pub proof fn lemma_no_backtrack_leak(stream: TokenStream, s: Seq<char>)
    requires
        spec_tokenize(s) is Ok,
        stream_matches(stream.tokens@, spec_tokenize(s)->Ok_0, s),
    ensures
        forall|i: int|
            0 <= i < stream.tokens@.len() ==> (#[trigger] stream.tokens@[i]).span.start
                < stream.tokens@[i].span.end,
        forall|i: int, j: int|
            0 <= i && j == i + 1 && j < stream.tokens@.len() ==> (#[trigger] stream.tokens@[i]).span.end
                == (#[trigger] stream.tokens@[j]).span.start,
        stream.tokens@.len() > 0 ==> stream.tokens@[0].span.start == 0
            && stream.tokens@[stream.tokens@.len() - 1].span.end == s.len(),
{
    let toks = stream.tokens@;
    let gs = spec_tokenize(s)->Ok_0;
    lemma_model_spans(s, 0, gs);
    assert forall|i: int| 0 <= i < toks.len() implies (#[trigger] toks[i]).span.start
        < toks[i].span.end by {
        assert(token_matches(toks[i], gs[i], s));
    }
    assert forall|i: int, j: int|
        0 <= i && j == i + 1 && j < toks.len() implies (#[trigger] toks[i]).span.end == (
    #[trigger] toks[j]).span.start by {
        assert(token_matches(toks[i], gs[i], s));
        assert(token_matches(toks[j], gs[j], s));
    }
    if toks.len() > 0 {
        assert(token_matches(toks[0], gs[0], s));
        assert(token_matches(toks[toks.len() - 1], gs[gs.len() - 1], s));
    }
}

/// Each token the model emits is the longest match at its own start
/// position.
proof fn lemma_model_longest(s: Seq<char>, p: int, gs: Seq<GhostToken>)
    requires
        0 <= p <= s.len(),
        spec_tokenize_from(s, p) == Ok::<Seq<GhostToken>, GhostError>(gs),
    ensures
        forall|i: int|
            0 <= i < gs.len() ==> longest_match(s, (#[trigger] gs[i]).start) == Some(
                (gs[i].end, gs[i].kind),
            ),
    decreases s.len() - p,
{
    if p >= s.len() {
    } else {
        let (e, k) = longest_match(s, p)->Some_0;
        assert(p < e <= s.len()) by {
            lemma_longest_from(s, p, s.len() as int);
        }
        let rest = spec_tokenize_from(s, e)->Ok_0;
        assert(spec_tokenize_from(s, e) == Ok::<Seq<GhostToken>, GhostError>(rest));
        lemma_model_longest(s, e, rest);
        assert(gs == seq![GhostToken { start: p, end: e, kind: k }] + rest);
        assert forall|i: int|
            0 <= i < gs.len() implies longest_match(s, (#[trigger] gs[i]).start) == Some(
            (gs[i].end, gs[i].kind),
        ) by {
            if i > 0 {
                assert(gs[i] == rest[i - 1]);
            }
        }
    }
}

/// A window that matches the whitespace rule really is all spaces, and
/// a window of two or more spaces matches nothing but the whitespace
/// rule.
proof fn lemma_whitespace_window(w: Seq<char>)
    ensures
        rule_match(w) == Some(TokenType::Whitespace) ==> is_whitespace_token(w),
        w.len() >= 2 && is_whitespace_token(w) ==> rule_match(w) == Some(TokenType::Whitespace),
{
    if rule_match(w) == Some(TokenType::Whitespace) {
        assert(spec_delimiter_kind(w[0]) != Some(TokenType::Whitespace));
    }
    if w.len() >= 2 && is_whitespace_token(w) {
        assert(!is_string_token(w));
        assert(w[0] == ' ');
        assert(!is_number_token(w)) by {
            assert(w[0] != '-');
            assert(!all_digits(w));
            if exists|k: int|
                1 <= k < w.len() - 1 && w[k] == '.' && all_digits(w.take(k)) && all_digits(
                    w.skip(k + 1),
                ) {
                let k = choose|k: int|
                    1 <= k < w.len() - 1 && w[k] == '.' && all_digits(w.take(k)) && all_digits(
                        w.skip(k + 1),
                    );
                assert(is_digit_char(w.take(k)[0]));
            }
        }
    }
}

/// Collapse law: a run of spaces is always one token — the stream
/// never holds two whitespace tokens side by side, since the growth
/// step would have taken both runs as one window.
pub proof fn lemma_whitespace_collapses(stream: TokenStream, s: Seq<char>)
    requires
        spec_tokenize(s) is Ok,
        stream_matches(stream.tokens@, spec_tokenize(s)->Ok_0, s),
    ensures
        forall|i: int, j: int|
            0 <= i && j == i + 1 && j < stream.tokens@.len() ==> !((
            #[trigger] stream.tokens@[i]).token_type == TokenType::Whitespace && (
            #[trigger] stream.tokens@[j]).token_type == TokenType::Whitespace),
{
    let toks = stream.tokens@;
    let gs = spec_tokenize(s)->Ok_0;
    lemma_model_spans(s, 0, gs);
    lemma_model_longest(s, 0, gs);
    assert forall|i: int, j: int|
        0 <= i && j == i + 1 && j < toks.len() implies !((#[trigger] toks[i]).token_type
        == TokenType::Whitespace && (#[trigger] toks[j]).token_type
        == TokenType::Whitespace) by {
        assert(token_matches(toks[i], gs[i], s));
        assert(token_matches(toks[j], gs[j], s));
        if toks[i].token_type == TokenType::Whitespace && toks[j].token_type
            == TokenType::Whitespace {
            let p = gs[i].start;
            let e1 = gs[i].end;
            let e2 = gs[j].end;
            assert(gs[j].start == e1);
            assert(p < e1 < e2 <= s.len());
            lemma_longest_from(s, p, s.len() as int);
            assert(rule_match(s.subrange(p, e1)) == Some(TokenType::Whitespace));
            lemma_longest_from(s, e1, s.len() as int);
            assert(rule_match(s.subrange(e1, e2)) == Some(TokenType::Whitespace));
            lemma_whitespace_window(s.subrange(p, e1));
            lemma_whitespace_window(s.subrange(e1, e2));
            let joined = s.subrange(p, e2);
            assert(is_whitespace_token(joined)) by {
                assert(forall|m: int|
                    0 <= m < e1 - p ==> joined[m] == s.subrange(p, e1)[m]);
                assert(forall|m: int|
                    e1 - p <= m < e2 - p ==> joined[m] == s.subrange(e1, e2)[m - (e1 - p)]);
            }
            lemma_whitespace_window(joined);
            assert(rule_match(s.subrange(p, e2)) is None);
            assert(false);
        }
    }
}

/// Determinism law: two streams produced from the same input agree
/// token for token — same spans, same contents, same kinds.
pub proof fn lemma_determinism(first: TokenStream, second: TokenStream, s: Seq<char>)
    requires
        spec_tokenize(s) is Ok,
        stream_matches(first.tokens@, spec_tokenize(s)->Ok_0, s),
        stream_matches(second.tokens@, spec_tokenize(s)->Ok_0, s),
    ensures
        first.tokens@.len() == second.tokens@.len(),
        forall|i: int|
            0 <= i < first.tokens@.len() ==> token_view_eq(
                #[trigger] first.tokens@[i],
                second.tokens@[i],
            ),
{
}

} // verus!
