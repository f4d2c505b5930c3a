use vstd::prelude::*;

verus! {

/// A token of a cue sheet.
#[derive(Debug, PartialEq, Eq)]
pub enum Token {
    File,
    Track,
    Index,
    Pregap,
    Postgap,
    // File types
    Binary,
    Motorola,
    Aiff,
    Wave,
    Mp3,
    // Track types
    Audio,
    Cdg,
    Mode1_2048,
    Mode1_2352,
    Mode2_2336,
    Mode2_2352,
    Cdi2336,
    Cdi2352,
    String(String),
    Number(u32),
    CdTime(String),
    Performer,
    Songwriter,
    Title,
    Newline,
    Eof,
}

/// Why a cue sheet could not be split into tokens.
#[derive(Clone, Copy, Debug, PartialEq, Eq, Structural)]
pub enum ScanError {
    /// A byte that starts no token.
    UnexpectedCharacter(u8),
    UnterminatedString,
    /// A quoted string that is not UTF-8.
    InvalidUtf8,
    /// A number too large for 32 bits.
    InvalidNumber,
    /// `MM:` or `MM:SS` not followed by a digit.
    InvalidTimeFormat,
    /// A word that is no keyword.
    InvalidKeyword,
}

/// A token as the bytes of the sheet give it.
pub enum Lexeme {
    /// A token without payload.
    Word(Token),
    /// A quoted string's bytes, quotes excluded.
    Str(Seq<u8>),
    Num(u32),
    /// A time's bytes, `MM:SS:FF` (the second separator may be any byte).
    Time(Seq<u8>),
}

/// The outcome of reading one token at a position.
pub enum Step {
    Read(Lexeme, int),
    Fail(ScanError),
    /// Reading runs off the end of the sheet inside a word or number.
    Overrun,
}

/// The outcome of reading all tokens from a position.
pub enum Scan {
    Tokens(Seq<Lexeme>),
    Fail(ScanError),
    Overrun,
}

/// The characters that `String::from_utf8` decodes from `bytes`, if they are
/// UTF-8.
pub uninterp spec fn utf8_decode(bytes: Seq<u8>) -> Option<Seq<char>>;

pub open spec fn is_ascii_bytes(bytes: Seq<u8>) -> bool {
    forall|i: int| 0 <= i < bytes.len() ==> bytes[i] < 0x80
}

pub open spec fn ascii_chars(bytes: Seq<u8>) -> Seq<char> {
    bytes.map_values(|b: u8| b as char)
}

/// `String::from_utf8`: the string of `bytes`, if they are UTF-8; ASCII
/// bytes always are, one character each.
#[verifier::external_body]
fn utf8_string(bytes: Vec<u8>) -> (r: Option<String>)
    ensures
        r is None <==> utf8_decode(bytes@) is None,
        r is Some ==> utf8_decode(bytes@) == Some(r->0@),
        is_ascii_bytes(bytes@) ==> r is Some && r->0@ == ascii_chars(bytes@),
{
    match String::from_utf8(bytes) {
        Ok(s) => Some(s),
        Err(_) => None,
    }
}

pub open spec fn is_space(b: u8) -> bool {
    b == 0x20 || b == 0x09 || b == 0x0D
}

pub open spec fn is_alpha(b: u8) -> bool {
    (0x41 <= b <= 0x5A) || (0x61 <= b <= 0x7A)
}

pub open spec fn is_digit(b: u8) -> bool {
    0x30 <= b <= 0x39
}

/// Letters, digits and `/` make up keywords.
pub open spec fn is_alnum(b: u8) -> bool {
    b == 0x2F || is_alpha(b) || is_digit(b)
}

/// The first position from `p` that holds no blank.
pub open spec fn skip_space(s: Seq<u8>, p: int) -> int
    decreases s.len() - p,
{
    if 0 <= p < s.len() && is_space(s[p]) {
        skip_space(s, p + 1)
    } else {
        p
    }
}

/// The first position from `p` that holds no keyword byte.
pub open spec fn alnum_end(s: Seq<u8>, p: int) -> int
    decreases s.len() - p,
{
    if 0 <= p < s.len() && is_alnum(s[p]) {
        alnum_end(s, p + 1)
    } else {
        p
    }
}

/// The first position from `p` that holds no digit.
pub open spec fn digit_end(s: Seq<u8>, p: int) -> int
    decreases s.len() - p,
{
    if 0 <= p < s.len() && is_digit(s[p]) {
        digit_end(s, p + 1)
    } else {
        p
    }
}

/// The first position from `p` that holds a double quote, or the end.
pub open spec fn quote_end(s: Seq<u8>, p: int) -> int
    decreases s.len() - p,
{
    if 0 <= p < s.len() && s[p] != 0x22 {
        quote_end(s, p + 1)
    } else {
        p
    }
}

/// The decimal value of a run of digits.
pub open spec fn decimal(s: Seq<u8>) -> nat
    decreases s.len(),
{
    if s.len() == 0 {
        0
    } else {
        decimal(s.drop_last()) * 10 + (s.last() - 0x30) as nat
    }
}

/// The keyword a word spells; only these are known.
pub open spec fn keyword(w: Seq<u8>) -> Option<Token> {
    if w == seq![0x46u8, 0x49, 0x4C, 0x45] {
        Some(Token::File)
    } else if w == seq![0x42u8, 0x49, 0x4E, 0x41, 0x52, 0x59] {
        Some(Token::Binary)
    } else if w == seq![0x54u8, 0x52, 0x41, 0x43, 0x4B] {
        Some(Token::Track)
    } else if w == seq![0x49u8, 0x4E, 0x44, 0x45, 0x58] {
        Some(Token::Index)
    } else if w == seq![0x41u8, 0x55, 0x44, 0x49, 0x4F] {
        Some(Token::Audio)
    } else if w == seq![0x4Du8, 0x4F, 0x44, 0x45, 0x32, 0x2F, 0x32, 0x33, 0x35, 0x32] {
        Some(Token::Mode2_2352)
    } else {
        None
    }
}

/// Reads a number or an `MM:SS:FF` time whose first digit is at `p`.
pub open spec fn number_or_time(s: Seq<u8>, p: int) -> Step {
    let e = digit_end(s, p + 1);
    if e >= s.len() {
        Step::Overrun
    } else if s[e] != 0x3A {
        if decimal(s.subrange(p, e)) > u32::MAX {
            Step::Fail(ScanError::InvalidNumber)
        } else {
            Step::Read(Lexeme::Num(decimal(s.subrange(p, e)) as u32), e)
        }
    } else if e + 1 >= s.len() {
        Step::Overrun
    } else if !is_digit(s[e + 1]) {
        Step::Fail(ScanError::InvalidTimeFormat)
    } else {
        let e2 = digit_end(s, e + 2);
        if e2 + 1 >= s.len() {
            Step::Overrun
        } else if !is_digit(s[e2 + 1]) {
            Step::Fail(ScanError::InvalidTimeFormat)
        } else {
            let e3 = digit_end(s, e2 + 2);
            if e3 >= s.len() {
                Step::Overrun
            } else if utf8_decode(s.subrange(p, e3)) is None {
                Step::Fail(ScanError::InvalidUtf8)
            } else {
                Step::Read(Lexeme::Time(s.subrange(p, e3)), e3)
            }
        }
    }
}

/// Reads the token at `pos`, after any blanks: a newline, a quoted string,
/// a keyword, a number or a time; at the end, `Eof`.
pub open spec fn scan_one(s: Seq<u8>, pos: int) -> Step {
    let p = skip_space(s, pos);
    if p >= s.len() {
        Step::Read(Lexeme::Word(Token::Eof), p)
    } else if s[p] == 0x0A {
        Step::Read(Lexeme::Word(Token::Newline), p + 1)
    } else if s[p] == 0x22 {
        let q = quote_end(s, p + 1);
        if q >= s.len() {
            Step::Fail(ScanError::UnterminatedString)
        } else if utf8_decode(s.subrange(p + 1, q)) is None {
            Step::Fail(ScanError::InvalidUtf8)
        } else {
            Step::Read(Lexeme::Str(s.subrange(p + 1, q)), q + 1)
        }
    } else if is_alpha(s[p]) {
        let e = alnum_end(s, p + 1);
        if e >= s.len() {
            Step::Overrun
        } else {
            match keyword(s.subrange(p, e)) {
                Some(k) => Step::Read(Lexeme::Word(k), e),
                None => Step::Fail(ScanError::InvalidKeyword),
            }
        }
    } else if is_digit(s[p]) {
        number_or_time(s, p)
    } else {
        Step::Fail(ScanError::UnexpectedCharacter(s[p]))
    }
}

/// Reads tokens from `pos` to the end of the sheet; the first failure or
/// overrun ends it.
pub open spec fn scan_from(s: Seq<u8>, pos: int) -> Scan
    decreases s.len() - pos,
{
    if pos < 0 || pos >= s.len() {
        Scan::Tokens(Seq::empty())
    } else {
        match scan_one(s, pos) {
            Step::Read(l, n) => if n <= pos || n > s.len() {
                Scan::Tokens(Seq::empty())
            } else {
                match scan_from(s, n) {
                    Scan::Tokens(ls) => Scan::Tokens(seq![l].add(ls)),
                    other => other,
                }
            },
            Step::Fail(e) => Scan::Fail(e),
            Step::Overrun => Scan::Overrun,
        }
    }
}

/// Whether a token is the one a lexeme describes.
pub open spec fn token_is(t: Token, l: Lexeme) -> bool {
    match l {
        Lexeme::Word(w) => t == w,
        Lexeme::Str(b) => t matches Token::String(s) && utf8_decode(b) == Some(s@),
        Lexeme::Num(n) => t == Token::Number(n),
        Lexeme::Time(b) => t matches Token::CdTime(s) && utf8_decode(b) == Some(s@),
    }
}

/// Splits a cue sheet into tokens.
pub struct Scanner {
    pub source: Vec<u8>,
    pub tokens: Vec<Token>,
    pub start: usize,
    pub current: usize,
}

/// The result of reading all tokens from a position, behind tokens already
/// read.
pub open spec fn after(read: Seq<Lexeme>, rest: Scan) -> Scan {
    match rest {
        Scan::Tokens(ls) => Scan::Tokens(read.add(ls)),
        other => other,
    }
}

/// Each run of bytes of a kind ends at or after where it starts.
proof fn lemma_ends(s: Seq<u8>, p: int)
    requires
        0 <= p,
    ensures
        skip_space(s, p) >= p,
        alnum_end(s, p) >= p,
        digit_end(s, p) >= p,
        quote_end(s, p) >= p,
        p <= s.len() ==> skip_space(s, p) <= s.len() && alnum_end(s, p) <= s.len() && digit_end(s, p)
            <= s.len() && quote_end(s, p) <= s.len(),
    decreases s.len() - p,
{
    if p < s.len() {
        lemma_ends(s, p + 1);
    }
}

/// Every byte of a digit run is a digit.
proof fn lemma_digit_run(s: Seq<u8>, q: int, k: int)
    requires
        0 <= q <= k < digit_end(s, q),
    ensures
        is_digit(s[k]),
    decreases k - q,
{
    if q < k {
        lemma_digit_run(s, q + 1, k);
    }
}

/// Reading one more token behind those read.
proof fn lemma_after_step(read: Seq<Lexeme>, l: Lexeme, rest: Scan)
    ensures
        after(read, after(seq![l], rest)) == after(read.push(l), rest),
{
    match rest {
        Scan::Tokens(ls) => {
            assert(read.add(seq![l].add(ls)) =~= read.push(l).add(ls));
        },
        _ => {},
    }
}

/// Nothing read leaves the outcome as it is.
proof fn lemma_after_empty(rest: Scan)
    ensures
        after(Seq::empty(), rest) == rest,
{
    match rest {
        Scan::Tokens(ls) => {
            assert(Seq::<Lexeme>::empty().add(ls) =~= ls);
        },
        _ => {},
    }
}

/// A longer run of digits is worth at least as much.
proof fn lemma_decimal_grows(s: Seq<u8>, p: int, i: int, j: int)
    requires
        0 <= p <= i <= j <= s.len(),
        forall|k: int| p <= k < j ==> is_digit(#[trigger] s[k]),
    ensures
        decimal(s.subrange(p, i)) <= decimal(s.subrange(p, j)),
    decreases j - i,
{
    if i < j {
        lemma_decimal_grows(s, p, i, j - 1);
        assert(s.subrange(p, j).drop_last() =~= s.subrange(p, j - 1));
    }
}

impl Scanner {
    pub fn with_source(source: Vec<u8>) -> (s: Self)
        ensures
            s.source@ == source@,
            s.tokens@ == Seq::<Token>::empty(),
            s.start == 0,
            s.current == 0,
    {
        Scanner { source, tokens: Vec::new(), start: 0, current: 0 }
    }

    /// Splits the sheet into tokens from the current position to the end,
    /// behind the tokens already read; the first error ends it. A sheet that
    /// ends inside a word or number is refused.
    pub fn scan_tokens(self) -> (r: Result<Vec<Token>, ScanError>)
        requires
            self.current <= self.source@.len(),
            !(scan_from(self.source@, self.current as int) is Overrun),
        ensures
            match scan_from(self.source@, self.current as int) {
                Scan::Tokens(ls) => r matches Ok(ts) && ts@.len() == self.tokens@.len() + ls.len()
                    && ts@.subrange(0, self.tokens@.len() as int) == self.tokens@ && forall|i: int|
                    0 <= i < ls.len() ==> token_is(#[trigger] ts@[self.tokens@.len() + i], ls[i]),
                Scan::Fail(e) => r matches Err(x) && x == e,
                Scan::Overrun => false,
            },
    {
        let ghost src = self.source@;
        let ghost cur0 = self.current as int;
        let ghost t0 = self.tokens@;
        let ghost mut read: Seq<Lexeme> = Seq::empty();
        let mut this = self;
        proof {
            lemma_after_empty(scan_from(src, cur0));
        }
        while !this.is_at_end()
            invariant
                this.source@ == src,
                self.source@ == src,
                self.current == cur0,
                self.tokens@ == t0,
                cur0 <= this.current <= src.len(),
                scan_from(src, cur0) == after(read, scan_from(src, this.current as int)),
                this.tokens@.len() == t0.len() + read.len(),
                this.tokens@.subrange(0, t0.len() as int) == t0,
                forall|i: int| 0 <= i < read.len() ==> token_is(#[trigger] this.tokens@[t0.len() + i], read[i]),
                !(scan_from(src, cur0) is Overrun),
            decreases src.len() - this.current,
        {
            let ghost before = this.current as int;
            proof {
                match scan_one(src, before) {
                    Step::Read(l, n) => {},
                    Step::Fail(e) => {},
                    Step::Overrun => {},
                }
            }
            let t = this.scan_token();
            match t {
                Ok(token) => {
                    let ghost l = match scan_one(src, before) {
                        Step::Read(l, n) => l,
                        _ => Lexeme::Word(Token::Eof),
                    };
                    this.tokens.push(token);
                    proof {
                        assert(scan_from(src, before) == after(seq![l], scan_from(src, this.current as int)));
                        lemma_after_step(read, l, scan_from(src, this.current as int));
                        read = read.push(l);
                        assert(this.tokens@.subrange(0, t0.len() as int) =~= t0);
                    }
                },
                Err(e) => {
                    assert(scan_from(src, before) == Scan::Fail(e));
                    assert(after(read, scan_from(src, before)) == Scan::Fail(e));
                    assert(scan_from(src, cur0) == Scan::Fail(e));
                    return Err(e);
                },
            }
        }
        assert(read.add(Seq::<Lexeme>::empty()) =~= read);
        Ok(this.tokens)
    }

    /// Reads one token, after any blanks.
    fn scan_token(&mut self) -> (r: Result<Token, ScanError>)
        requires
            old(self).current < old(self).source@.len(),
            !(scan_one(old(self).source@, old(self).current as int) is Overrun),
        ensures
            final(self).source@ == old(self).source@,
            final(self).tokens@ == old(self).tokens@,
            match scan_one(old(self).source@, old(self).current as int) {
                Step::Read(l, n) => r matches Ok(t) && token_is(t, l) && final(self).current == n && n
                    > old(self).current && n <= old(self).source@.len(),
                Step::Fail(e) => r matches Err(x) && x == e,
                Step::Overrun => false,
            },
    {
        let ghost s = self.source@;
        while !self.is_at_end() && is_blank(self.peek())
            invariant
                self.source@ == s,
                self.tokens@ == old(self).tokens@,
                old(self).current <= self.current <= s.len(),
                skip_space(s, self.current as int) == skip_space(s, old(self).current as int),
            decreases s.len() - self.current,
        {
            self.advance();
        }
        proof {
            lemma_ends(s, old(self).current as int);
        }
        assert(self.current == skip_space(s, old(self).current as int));
        if self.is_at_end() {
            return Ok(Token::Eof);
        }
        self.start = self.current;
        proof {
            lemma_ends(s, self.current + 1);
        }
        let c = self.advance();
        if c == 0x0A {
            Ok(Token::Newline)
        } else if c == 0x22 {
            match self.string() {
                Ok(st) => Ok(Token::String(st)),
                Err(e) => Err(e),
            }
        } else if is_alpha_byte(c) {
            self.keyword()
        } else if is_digit_byte(c) {
            self.number_or_time()
        } else {
            Err(ScanError::UnexpectedCharacter(c))
        }
    }

    /// Reads a quoted string whose opening quote was just taken.
    fn string(&mut self) -> (r: Result<String, ScanError>)
        requires
            old(self).current == old(self).start + 1,
            old(self).current <= old(self).source@.len(),
        ensures
            final(self).source@ == old(self).source@,
            final(self).tokens@ == old(self).tokens@,
            ({
                let s = old(self).source@;
                let q = quote_end(s, old(self).current as int);
                if q >= s.len() {
                    r matches Err(x) && x == ScanError::UnterminatedString
                } else if utf8_decode(s.subrange(old(self).current as int, q)) is None {
                    r matches Err(x) && x == ScanError::InvalidUtf8
                } else {
                    r matches Ok(st) && utf8_decode(s.subrange(old(self).current as int, q)) == Some(st@)
                        && final(self).current == q + 1
                }
            }),
    {
        let ghost s = self.source@;
        let first = self.current;
        proof {
            lemma_ends(s, first as int);
        }
        while !self.is_at_end() && self.peek() != 0x22
            invariant
                self.source@ == s,
                self.tokens@ == old(self).tokens@,
                self.start == old(self).start,
                first <= self.current <= s.len(),
                quote_end(s, self.current as int) == quote_end(s, first as int),
            decreases s.len() - self.current,
        {
            self.advance();
        }
        if self.is_at_end() {
            return Err(ScanError::UnterminatedString);
        }
        let last = self.current;
        self.advance();
        let bytes = slice_bytes(&self.source, first, last);
        match utf8_string(bytes) {
            Some(st) => Ok(st),
            None => Err(ScanError::InvalidUtf8),
        }
    }

    /// Reads a keyword whose first letter was just taken.
    fn keyword(&mut self) -> (r: Result<Token, ScanError>)
        requires
            old(self).current == old(self).start + 1,
            old(self).current <= old(self).source@.len(),
            alnum_end(old(self).source@, old(self).current as int) < old(self).source@.len(),
        ensures
            final(self).source@ == old(self).source@,
            final(self).tokens@ == old(self).tokens@,
            ({
                let s = old(self).source@;
                let e = alnum_end(s, old(self).current as int);
                &&& final(self).current == e
                &&& e <= s.len()
                &&& keyword(s.subrange(old(self).start as int, e)) is Some ==> r == Ok::<Token, ScanError>(
                    keyword(s.subrange(old(self).start as int, e))->0,
                )
                &&& keyword(s.subrange(old(self).start as int, e)) is None ==> r == Err::<Token, ScanError>(
                    ScanError::InvalidKeyword,
                )
            }),
    {
        let ghost s = self.source@;
        let first = self.current;
        proof {
            lemma_ends(s, first as int);
        }
        while is_keyword_byte(self.peek())
            invariant
                self.source@ == s,
                self.tokens@ == old(self).tokens@,
                self.start == old(self).start,
                first <= self.current <= alnum_end(s, first as int),
                alnum_end(s, self.current as int) == alnum_end(s, first as int),
                alnum_end(s, first as int) < s.len(),
            decreases s.len() - self.current,
        {
            self.advance();
            proof {
                lemma_ends(s, self.current as int);
            }
        }
        keyword_token(&self.source, self.start, self.current)
    }

    /// Reads a number, or an `MM:SS:FF` time, whose first digit was just
    /// taken.
    fn number_or_time(&mut self) -> (r: Result<Token, ScanError>)
        requires
            old(self).current == old(self).start + 1,
            old(self).current <= old(self).source@.len(),
            is_digit(old(self).source@[old(self).start as int]),
            !(number_or_time(old(self).source@, old(self).start as int) is Overrun),
        ensures
            final(self).source@ == old(self).source@,
            final(self).tokens@ == old(self).tokens@,
            match number_or_time(old(self).source@, old(self).start as int) {
                Step::Read(l, n) => r matches Ok(t) && token_is(t, l) && final(self).current == n && n
                    > old(self).start && n <= old(self).source@.len(),
                Step::Fail(e) => r matches Err(x) && x == e,
                Step::Overrun => false,
            },
    {
        let ghost s = self.source@;
        let p = self.start;
        proof {
            lemma_ends(s, p + 1);
        }
        self.skip_digits();
        proof {
            assert forall|k: int| p <= k < self.current implies is_digit(#[trigger] s[k]) by {
                if k > p {
                    lemma_digit_run(s, p + 1, k);
                }
            }
        }
        if self.peek() != 0x3A {
            return match parse_decimal(&self.source, p, self.current) {
                Some(v) => Ok(Token::Number(v)),
                None => Err(ScanError::InvalidNumber),
            };
        }
        self.advance();
        if !is_digit_byte(self.peek()) {
            return Err(ScanError::InvalidTimeFormat);
        }
        proof {
            lemma_ends(s, self.current as int);
        }
        self.skip_digits();
        self.advance();
        if !is_digit_byte(self.peek()) {
            return Err(ScanError::InvalidTimeFormat);
        }
        proof {
            lemma_ends(s, self.current as int);
        }
        self.skip_digits();
        let bytes = slice_bytes(&self.source, p, self.current);
        match utf8_string(bytes) {
            Some(st) => Ok(Token::CdTime(st)),
            None => Err(ScanError::InvalidUtf8),
        }
    }

    /// Moves past the digits from the current position; the run must not
    /// reach the end of the sheet.
    fn skip_digits(&mut self)
        requires
            old(self).current <= old(self).source@.len(),
            digit_end(old(self).source@, old(self).current as int) < old(self).source@.len(),
        ensures
            final(self).source@ == old(self).source@,
            final(self).tokens@ == old(self).tokens@,
            final(self).start == old(self).start,
            final(self).current == digit_end(old(self).source@, old(self).current as int),
    {
        let ghost s = self.source@;
        let first = self.current;
        proof {
            lemma_ends(s, first as int);
        }
        while is_digit_byte(self.peek())
            invariant
                self.source@ == s,
                self.tokens@ == old(self).tokens@,
                self.start == old(self).start,
                first <= self.current <= digit_end(s, first as int),
                digit_end(s, self.current as int) == digit_end(s, first as int),
                digit_end(s, first as int) < s.len(),
            decreases s.len() - self.current,
        {
            self.advance();
            proof {
                lemma_ends(s, self.current as int);
            }
        }
    }

    fn peek(&self) -> (r: u8)
        requires
            self.current < self.source.len(),
        ensures
            r == self.source@[self.current as int],
    {
        self.source[self.current]
    }

    fn advance(&mut self) -> (r: u8)
        requires
            old(self).current < old(self).source.len(),
        ensures
            r == old(self).source@[old(self).current as int],
            final(self).source@ == old(self).source@,
            final(self).tokens@ == old(self).tokens@,
            final(self).start == old(self).start,
            final(self).current == old(self).current + 1,
    {
        let ch = self.source[self.current];
        self.current = self.current + 1;
        ch
    }

    fn is_at_end(&self) -> (r: bool)
        ensures
            r == (self.current >= self.source@.len()),
    {
        self.current >= self.source.len()
    }
}

/// Whether a run of `kind` (see `run_end`) takes byte `b`.
fn run_takes(kind: u8, b: u8) -> (r: bool)
    ensures
        kind == 0 ==> r == is_space(b),
        kind == 1 ==> r == is_alnum(b),
        kind == 2 ==> r == is_digit(b),
        kind == 3 ==> r == (b != 0x22),
{
    if kind == 0 {
        is_blank(b)
    } else if kind == 1 {
        is_keyword_byte(b)
    } else if kind == 2 {
        is_digit_byte(b)
    } else {
        b != 0x22
    }
}

/// The end of the run of bytes from `p` that `kind` takes: blanks (0),
/// keyword bytes (1), digits (2), or anything but a double quote (3).
fn run_end(s: &Vec<u8>, p: usize, kind: u8) -> (r: usize)
    requires
        p <= s@.len(),
        kind < 4,
    ensures
        kind == 0 ==> r == skip_space(s@, p as int),
        kind == 1 ==> r == alnum_end(s@, p as int),
        kind == 2 ==> r == digit_end(s@, p as int),
        kind == 3 ==> r == quote_end(s@, p as int),
        p <= r <= s@.len(),
{
    let ghost sq = s@;
    proof {
        lemma_ends(sq, p as int);
    }
    let mut q = p;
    while q < s.len() && run_takes(kind, s[q])
        invariant
            p <= q <= s@.len(),
            s@ == sq,
            kind < 4,
            kind == 0 ==> skip_space(sq, q as int) == skip_space(sq, p as int),
            kind == 1 ==> alnum_end(sq, q as int) == alnum_end(sq, p as int),
            kind == 2 ==> digit_end(sq, q as int) == digit_end(sq, p as int),
            kind == 3 ==> quote_end(sq, q as int) == quote_end(sq, p as int),
        decreases s@.len() - q,
    {
        q = q + 1;
    }
    q
}

/// What reading the token at `pos` comes to: read up to a position (0, with
/// that position), a failure (1), or running off the end (2).
fn step_at(s: &Vec<u8>, pos: usize) -> (r: (u8, usize))
    requires
        pos <= s@.len(),
    ensures
        match scan_one(s@, pos as int) {
            Step::Read(_, n) => r.0 == 0 && r.1 == n,
            Step::Fail(_) => r.0 == 1,
            Step::Overrun => r.0 == 2,
        },
{
    let ghost sq = s@;
    let len = s.len();
    let p = run_end(s, pos, 0);
    if p >= len {
        return (0, p);
    }
    let c = s[p];
    if c == 0x0A {
        (0, p + 1)
    } else if c == 0x22 {
        let q = run_end(s, p + 1, 3);
        if q >= len {
            (1, 0)
        } else {
            match utf8_string(slice_bytes(s, p + 1, q)) {
                Some(_) => (0, q + 1),
                None => (1, 0),
            }
        }
    } else if is_alpha_byte(c) {
        let e = run_end(s, p + 1, 1);
        if e >= len {
            (2, 0)
        } else {
            match keyword_token(s, p, e) {
                Ok(_) => (0, e),
                Err(_) => (1, 0),
            }
        }
    } else if is_digit_byte(c) {
        let e = run_end(s, p + 1, 2);
        proof {
            assert forall|k: int| p <= k < e implies is_digit(#[trigger] sq[k]) by {
                if k > p {
                    lemma_digit_run(sq, p + 1, k);
                }
            }
        }
        if e >= len {
            (2, 0)
        } else if s[e] != 0x3A {
            match parse_decimal(s, p, e) {
                Some(_) => (0, e),
                None => (1, 0),
            }
        } else if e + 1 >= len {
            (2, 0)
        } else if !is_digit_byte(s[e + 1]) {
            (1, 0)
        } else {
            let e2 = run_end(s, e + 2, 2);
            if e2 >= len - 1 {
                (2, 0)
            } else if !is_digit_byte(s[e2 + 1]) {
                (1, 0)
            } else {
                let e3 = run_end(s, e2 + 2, 2);
                if e3 >= len {
                    (2, 0)
                } else {
                    match utf8_string(slice_bytes(s, p, e3)) {
                        Some(_) => (0, e3),
                        None => (1, 0),
                    }
                }
            }
        }
    } else {
        (1, 0)
    }
}

/// Whether reading the sheet from `from` runs off its end inside a word or
/// number, which `Scanner::scan_tokens` cannot take.
pub fn runs_off_end(source: &Vec<u8>, from: usize) -> (r: bool)
    requires
        from <= source@.len(),
    ensures
        r == (scan_from(source@, from as int) is Overrun),
{
    let ghost s = source@;
    let mut pos = from;
    while pos < source.len()
        invariant
            from <= pos <= s.len(),
            source@ == s,
            (scan_from(s, from as int) is Overrun) == (scan_from(s, pos as int) is Overrun),
        decreases s.len() - pos,
    {
        let (kind, n) = step_at(source, pos);
        if kind == 1 {
            return false;
        } else if kind == 2 {
            return true;
        }
        if n <= pos || n > source.len() {
            return false;
        }
        pos = n;
    }
    false
}

fn is_blank(b: u8) -> (r: bool)
    ensures
        r == is_space(b),
{
    b == 0x20 || b == 0x09 || b == 0x0D
}

fn is_alpha_byte(b: u8) -> (r: bool)
    ensures
        r == is_alpha(b),
{
    (0x41 <= b && b <= 0x5A) || (0x61 <= b && b <= 0x7A)
}

fn is_digit_byte(b: u8) -> (r: bool)
    ensures
        r == is_digit(b),
{
    0x30 <= b && b <= 0x39
}

fn is_keyword_byte(b: u8) -> (r: bool)
    ensures
        r == is_alnum(b),
{
    b == 0x2F || is_alpha_byte(b) || is_digit_byte(b)
}

/// The bytes `s[from..to]`.
fn slice_bytes(s: &Vec<u8>, from: usize, to: usize) -> (r: Vec<u8>)
    requires
        from <= to <= s@.len(),
    ensures
        r@ == s@.subrange(from as int, to as int),
{
    let mut r: Vec<u8> = Vec::new();
    let mut i = from;
    while i < to
        invariant
            from <= i <= to <= s@.len(),
            r@ == s@.subrange(from as int, i as int),
        decreases to - i,
    {
        r.push(s[i]);
        i = i + 1;
        assert(r@ =~= s@.subrange(from as int, i as int));
    }
    r
}

/// Whether `s[from..to]` spells the word `w`.
fn spells(s: &Vec<u8>, from: usize, to: usize, w: &[u8]) -> (r: bool)
    requires
        from <= to <= s@.len(),
    ensures
        r == (s@.subrange(from as int, to as int) == w@),
{
    if to - from != w.len() {
        assert(s@.subrange(from as int, to as int).len() != w@.len());
        return false;
    }
    let mut i: usize = 0;
    while i < w.len()
        invariant
            from <= to <= s@.len(),
            to - from == w@.len(),
            i <= w@.len(),
            forall|k: int| 0 <= k < i ==> s@[from + k] == w@[k],
        decreases w@.len() - i,
    {
        if s[from + i] != w[i] {
            assert(s@.subrange(from as int, to as int)[i as int] != w@[i as int]);
            return false;
        }
        i = i + 1;
    }
    assert(s@.subrange(from as int, to as int) =~= w@);
    true
}

/// The keyword that `s[from..to]` spells.
fn keyword_token(s: &Vec<u8>, from: usize, to: usize) -> (r: Result<Token, ScanError>)
    requires
        from <= to <= s@.len(),
    ensures
        keyword(s@.subrange(from as int, to as int)) is Some ==> r == Ok::<Token, ScanError>(
            keyword(s@.subrange(from as int, to as int))->0,
        ),
        keyword(s@.subrange(from as int, to as int)) is None ==> r == Err::<Token, ScanError>(
            ScanError::InvalidKeyword,
        ),
{
    let file = [0x46u8, 0x49, 0x4C, 0x45];
    let binary = [0x42u8, 0x49, 0x4E, 0x41, 0x52, 0x59];
    let track = [0x54u8, 0x52, 0x41, 0x43, 0x4B];
    let index = [0x49u8, 0x4E, 0x44, 0x45, 0x58];
    let audio = [0x41u8, 0x55, 0x44, 0x49, 0x4F];
    let mode2 = [0x4Du8, 0x4F, 0x44, 0x45, 0x32, 0x2F, 0x32, 0x33, 0x35, 0x32];
    assert(file@ =~= seq![0x46u8, 0x49, 0x4C, 0x45]);
    assert(binary@ =~= seq![0x42u8, 0x49, 0x4E, 0x41, 0x52, 0x59]);
    assert(track@ =~= seq![0x54u8, 0x52, 0x41, 0x43, 0x4B]);
    assert(index@ =~= seq![0x49u8, 0x4E, 0x44, 0x45, 0x58]);
    assert(audio@ =~= seq![0x41u8, 0x55, 0x44, 0x49, 0x4F]);
    assert(mode2@ =~= seq![0x4Du8, 0x4F, 0x44, 0x45, 0x32, 0x2F, 0x32, 0x33, 0x35, 0x32]);
    if spells(s, from, to, &file) {
        Ok(Token::File)
    } else if spells(s, from, to, &binary) {
        Ok(Token::Binary)
    } else if spells(s, from, to, &track) {
        Ok(Token::Track)
    } else if spells(s, from, to, &index) {
        Ok(Token::Index)
    } else if spells(s, from, to, &audio) {
        Ok(Token::Audio)
    } else if spells(s, from, to, &mode2) {
        Ok(Token::Mode2_2352)
    } else {
        Err(ScanError::InvalidKeyword)
    }
}

/// The value of the digits `s[from..to]`, unless it exceeds 32 bits.
fn parse_decimal(s: &Vec<u8>, from: usize, to: usize) -> (r: Option<u32>)
    requires
        from <= to <= s@.len(),
        forall|k: int| from <= k < to ==> is_digit(#[trigger] s@[k]),
    ensures
        decimal(s@.subrange(from as int, to as int)) <= u32::MAX ==> r == Some(decimal(s@.subrange(from as int, to as int)) as u32),
        decimal(s@.subrange(from as int, to as int)) > u32::MAX ==> r is None,
{
    let mut v: u32 = 0;
    let mut i = from;
    assert(s@.subrange(from as int, from as int) =~= Seq::<u8>::empty());
    while i < to
        invariant
            from <= i <= to <= s@.len(),
            forall|k: int| from <= k < to ==> is_digit(#[trigger] s@[k]),
            v == decimal(s@.subrange(from as int, i as int)),
        decreases to - i,
    {
        let d = (s[i] - 0x30) as u32;
        assert(s@.subrange(from as int, i + 1).drop_last() =~= s@.subrange(from as int, i as int));
        if v > (0xFFFF_FFFFu32 - d) / 10 {
            proof {
                lemma_decimal_grows(s@, from as int, i + 1, to as int);
            }
            return None;
        }
        v = v * 10 + d;
        i = i + 1;
    }
    Some(v)
}

/// Builds a cue sheet from its tokens.
pub struct Parser {
    pub tokens: Vec<Token>,
    pub current: usize,
}

impl Parser {
    pub fn new(tokens: Vec<Token>) -> (p: Self)
        ensures
            p.tokens@ == tokens@,
            p.current == 0,
    {
        Parser { tokens, current: 0 }
    }
}

} // verus!
