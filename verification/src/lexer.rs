//! The tokenizer: characters in, classified tokens out, one at a time.

use vstd::prelude::*;
use crate::text::{literal_value, read_literal};

verus! {

/// What a token is.
#[derive(Debug, Clone, Copy, PartialEq, Eq, Structural)]
pub enum LexerTokenKind {
    Integer,
    Word,
    OpenParen,
    CloseParen,
    OpenCurly,
    CloseCurly,
    Plus,
    Minus,
    Multiplication,
    Division,
    Mod,
    ExclamationMark,
    Comma,
}

/// A token's payload: `integer` for an `Integer` token, `string` for every
/// other kind. The field that does not apply is zero or empty.
#[derive(Debug, PartialEq, Eq)]
pub struct LexerTokenValue {
    pub integer: i64,
    pub string: String,
}

/// A token: its kind and its payload.
#[derive(Debug, PartialEq, Eq)]
pub struct LexerToken {
    pub kind: LexerTokenKind,
    pub value: LexerTokenValue,
}

/// A token as contracts speak of it.
pub struct LexerTokenView {
    pub kind: LexerTokenKind,
    pub integer: i64,
    pub string: Seq<char>,
}

impl View for LexerTokenValue {
    type V = (i64, Seq<char>);

    open spec fn view(&self) -> (i64, Seq<char>) {
        (self.integer, self.string@)
    }
}

impl View for LexerToken {
    type V = LexerTokenView;

    open spec fn view(&self) -> LexerTokenView {
        LexerTokenView {
            kind: self.kind,
            integer: self.value.integer,
            string: self.value.string@,
        }
    }
}

impl LexerTokenValue {
    /// The payload of a token that carries text.
    pub fn from_string(s: String) -> (value: LexerTokenValue)
        ensures
            value@ == (0i64, s@),
    {
        LexerTokenValue { integer: 0, string: s }
    }

    /// The payload of an integer token.
    pub fn from_int(i: i64) -> (value: LexerTokenValue)
        ensures
            value@ == (i, Seq::<char>::empty()),
    {
        LexerTokenValue { integer: i, string: String::new() }
    }
}

/// Whether `c` has the Unicode property White_Space: the controls from tab
/// to carriage return, the space, the next-line control, the no-break
/// space and the space separators and line and paragraph separators
/// beyond them.
pub open spec fn white_space(c: char) -> bool {
    let code = c as u32;
    ||| 0x0009 <= code <= 0x000D
    ||| code == 0x0020
    ||| code == 0x0085
    ||| code == 0x00A0
    ||| code == 0x1680
    ||| 0x2000 <= code <= 0x200A
    ||| code == 0x2028
    ||| code == 0x2029
    ||| code == 0x202F
    ||| code == 0x205F
    ||| code == 0x3000
}

/// What `char::is_alphanumeric` answers for `c`: whether `c` is alphabetic
/// or numeric by its Unicode properties.
pub uninterp spec fn unicode_alphanumeric(c: char) -> bool;

/// Whether `c` is alphabetic or numeric by its Unicode properties. Among
/// the ASCII characters these are the letters and the digits; beyond
/// them the answer is the one that `char::is_alphanumeric` gives.
pub open spec fn alphanumeric(c: char) -> bool {
    if (c as u32) < 128 {
        ('0' <= c <= '9') || ('a' <= c <= 'z') || ('A' <= c <= 'Z')
    } else {
        unicode_alphanumeric(c)
    }
}

/// Calls `char::is_whitespace`, which answers whether the character has
/// the Unicode property White_Space. The contract spells the property out.
#[verifier::external_body]
fn is_whitespace(c: char) -> (b: bool)
    ensures
        b == white_space(c),
{
    c.is_whitespace()
}

/// Calls `char::is_alphanumeric`, which answers whether the character is
/// alphabetic or numeric. The answer depends on the character alone; for
/// an ASCII character the contract spells it out: the letters and the
/// digits, and no other.
#[verifier::external_body]
fn is_alphanumeric(c: char) -> (b: bool)
    ensures
        b == unicode_alphanumeric(c),
        b == alphanumeric(c),
{
    c.is_alphanumeric()
}

/// A character together with the two answers that tokenizing needs of it.
#[derive(Debug, Clone, Copy, PartialEq, Eq, Structural)]
pub struct ClassifiedChar {
    pub character: char,
    pub whitespace: bool,
    pub alphanumeric: bool,
}

/// The character `c` as Unicode classifies it.
pub open spec fn classified(c: char) -> ClassifiedChar {
    ClassifiedChar {
        character: c,
        whitespace: white_space(c),
        alphanumeric: alphanumeric(c),
    }
}

/// The characters of `s`, each as Unicode classifies it.
pub open spec fn classify(s: Seq<char>) -> Seq<ClassifiedChar> {
    Seq::new(s.len(), |i: int| classified(s[i]))
}

/// The characters of `s` without their classes.
pub open spec fn characters(s: Seq<ClassifiedChar>) -> Seq<char> {
    Seq::new(s.len(), |i: int| s[i].character)
}

impl ClassifiedChar {
    /// Classifies a character.
    pub fn of(c: char) -> (class: ClassifiedChar)
        ensures
            class == classified(c),
    {
        ClassifiedChar {
            character: c,
            whitespace: is_whitespace(c),
            alphanumeric: is_alphanumeric(c),
        }
    }
}

/// The kind of the token that the character makes by itself, if it is one
/// of the eleven punctuation characters.
pub open spec fn punctuation(c: char) -> Option<LexerTokenKind> {
    if c == '(' {
        Some(LexerTokenKind::OpenParen)
    } else if c == ')' {
        Some(LexerTokenKind::CloseParen)
    } else if c == '{' {
        Some(LexerTokenKind::OpenCurly)
    } else if c == '}' {
        Some(LexerTokenKind::CloseCurly)
    } else if c == '+' {
        Some(LexerTokenKind::Plus)
    } else if c == '-' {
        Some(LexerTokenKind::Minus)
    } else if c == '*' {
        Some(LexerTokenKind::Multiplication)
    } else if c == '/' {
        Some(LexerTokenKind::Division)
    } else if c == '!' {
        Some(LexerTokenKind::ExclamationMark)
    } else if c == ',' {
        Some(LexerTokenKind::Comma)
    } else if c == '%' {
        Some(LexerTokenKind::Mod)
    } else {
        None
    }
}

/// The first index from `i` on that holds no whitespace, or the end of `s`.
pub open spec fn whitespace_end(s: Seq<ClassifiedChar>, i: int) -> int
    decreases s.len() - i,
{
    if 0 <= i < s.len() && s[i].whitespace {
        whitespace_end(s, i + 1)
    } else {
        i
    }
}

/// The first index from `i` on that holds no alphanumeric character, or the
/// end of `s`.
pub open spec fn alphanumeric_end(s: Seq<ClassifiedChar>, i: int) -> int
    decreases s.len() - i,
{
    if 0 <= i < s.len() && s[i].alphanumeric {
        alphanumeric_end(s, i + 1)
    } else {
        i
    }
}

/// The token that an accumulated text makes: an integer if the whole text
/// is an integer literal, a word otherwise.
pub open spec fn text_token(text: Seq<char>) -> LexerTokenView {
    match literal_value(text) {
        Some(value) => LexerTokenView {
            kind: LexerTokenKind::Integer,
            integer: value,
            string: Seq::empty(),
        },
        None => LexerTokenView { kind: LexerTokenKind::Word, integer: 0, string: text },
    }
}

/// The first token of `s` at or after index `i`, with the index just past
/// it. Whitespace is skipped. A punctuation character is a token by itself;
/// any other character opens a text that runs on while alphanumeric
/// characters follow. There is no token when only whitespace is left.
pub open spec fn token_at(s: Seq<ClassifiedChar>, i: int) -> Option<(LexerTokenView, int)> {
    let start = whitespace_end(s, i);
    if 0 <= start < s.len() {
        match punctuation(s[start].character) {
            Some(kind) => Some(
                (LexerTokenView { kind, integer: 0, string: seq![s[start].character] }, start + 1),
            ),
            None => {
                let end = alphanumeric_end(s, start + 1);
                Some((text_token(characters(s.subrange(start, end))), end))
            },
        }
    } else {
        None
    }
}

/// The tokens of `s` from index `i` on.
pub open spec fn tokens_from(s: Seq<ClassifiedChar>, i: int) -> Seq<LexerTokenView>
    decreases s.len() - i,
{
    match token_at(s, i) {
        Some((token, end)) => {
            proof {
                lemma_whitespace_end(s, i);
                lemma_alphanumeric_end(s, whitespace_end(s, i) + 1);
            }
            seq![token] + tokens_from(s, end)
        },
        None => Seq::empty(),
    }
}

/// The tokens of a source text.
pub open spec fn tokenize(source: Seq<char>) -> Seq<LexerTokenView> {
    tokens_from(classify(source), 0)
}

/// Skipping whitespace moves forward, stays within the text, and stops on
/// a character that is no whitespace.
pub proof fn lemma_whitespace_end(s: Seq<ClassifiedChar>, i: int)
    ensures
        i <= whitespace_end(s, i),
        i <= s.len() ==> whitespace_end(s, i) <= s.len(),
        0 <= whitespace_end(s, i) < s.len() ==> !s[whitespace_end(s, i)].whitespace,
    decreases s.len() - i,
{
    if 0 <= i < s.len() && s[i].whitespace {
        lemma_whitespace_end(s, i + 1);
    }
}

/// An alphanumeric run moves forward and stays within the text.
pub proof fn lemma_alphanumeric_end(s: Seq<ClassifiedChar>, i: int)
    ensures
        i <= alphanumeric_end(s, i),
        i <= s.len() ==> alphanumeric_end(s, i) <= s.len(),
    decreases s.len() - i,
{
    if 0 <= i < s.len() && s[i].alphanumeric {
        lemma_alphanumeric_end(s, i + 1);
    }
}

/// What holds of every token that tokenizing makes: an integer is not
/// negative and carries no text; a word carries a text that is not empty
/// and is no integer literal; a punctuation token carries the one character
/// that makes its kind.
pub open spec fn well_formed(token: LexerTokenView) -> bool {
    match token.kind {
        LexerTokenKind::Integer => token.integer >= 0 && token.string.len() == 0,
        LexerTokenKind::Word => {
            &&& token.integer == 0
            &&& token.string.len() > 0
            &&& literal_value(token.string) is None
        },
        kind => {
            &&& token.integer == 0
            &&& token.string.len() == 1
            &&& punctuation(token.string[0]) == Some(kind)
        },
    }
}

/// Every token of a text, from any position on, is well formed.
pub proof fn law_tokens_from_are_well_formed(s: Seq<ClassifiedChar>, i: int)
    ensures
        forall|k: int|
            0 <= k < tokens_from(s, i).len() ==> well_formed(#[trigger] tokens_from(s, i)[k]),
    decreases s.len() - i,
{
    match token_at(s, i) {
        Some((token, end)) => {
            lemma_whitespace_end(s, i);
            lemma_alphanumeric_end(s, whitespace_end(s, i) + 1);
            law_tokens_from_are_well_formed(s, end);
            let rest = tokens_from(s, end);
            assert(well_formed(token));
            assert forall|k: int| 0 <= k < tokens_from(s, i).len() implies well_formed(
                #[trigger] tokens_from(s, i)[k],
            ) by {
                if k > 0 {
                    assert(tokens_from(s, i)[k] == rest[k - 1]);
                }
            }
        },
        None => {},
    }
}

/// From a position in the text on there is no token exactly when
/// nothing but whitespace is left.
pub proof fn law_no_token_iff_blank(s: Seq<ClassifiedChar>, i: int)
    requires
        0 <= i <= s.len(),
    ensures
        tokens_from(s, i).len() == 0 <==> forall|j: int| i <= j < s.len() ==> s[j].whitespace,
    decreases s.len() - i,
{
    if i < s.len() && s[i].whitespace {
        law_no_token_iff_blank(s, i + 1);
        assert(token_at(s, i) == token_at(s, i + 1));
        if forall|j: int| i + 1 <= j < s.len() ==> s[j].whitespace {
            assert forall|j: int| i <= j < s.len() implies s[j].whitespace by {}
        }
    } else if i < s.len() {
        assert(token_at(s, i) is Some);
    }
}

/// An alphanumeric run that starts at `start` ends at `end` if every
/// character between them is alphanumeric and the one at `end` is not.
pub proof fn lemma_alphanumeric_run(s: Seq<ClassifiedChar>, start: int, end: int)
    requires
        0 <= start <= end <= s.len(),
        forall|j: int| start <= j < end ==> s[j].alphanumeric,
        end < s.len() ==> !s[end].alphanumeric,
    ensures
        alphanumeric_end(s, start) == end,
    decreases end - start,
{
    if start < end {
        lemma_alphanumeric_run(s, start + 1, end);
    }
}

/// The token at `i` is the punctuation character at `start`, where `start`
/// is `i` or follows one whitespace character at `i`.
pub proof fn lemma_punctuation_token(s: Seq<ClassifiedChar>, i: int, start: int)
    requires
        0 <= i <= start < s.len(),
        i == start || (i + 1 == start && s[i].whitespace),
        !s[start].whitespace,
        punctuation(s[start].character) is Some,
    ensures
        token_at(s, i) == Some(
            (
                LexerTokenView {
                    kind: punctuation(s[start].character)->Some_0,
                    integer: 0,
                    string: seq![s[start].character],
                },
                start + 1,
            ),
        ),
{
    assert(whitespace_end(s, start) == start);
}

/// The token at `i` is the text from `start` to `end`, where `start` is
/// `i` or follows one whitespace character at `i`, the character at
/// `start` is no punctuation, and an alphanumeric run leads from there to
/// `end`.
pub proof fn lemma_text_token(s: Seq<ClassifiedChar>, i: int, start: int, end: int)
    requires
        0 <= i <= start < end <= s.len(),
        i == start || (i + 1 == start && s[i].whitespace),
        !s[start].whitespace,
        punctuation(s[start].character) is None,
        forall|j: int| start < j < end ==> s[j].alphanumeric,
        end < s.len() ==> !s[end].alphanumeric,
    ensures
        token_at(s, i) == Some((text_token(characters(s.subrange(start, end))), end)),
{
    assert(whitespace_end(s, start) == start);
    lemma_alphanumeric_run(s, start + 1, end);
}

/// A stream of tokens over a text, read on demand.
pub struct Lexer {
    chars: Vec<ClassifiedChar>,
    at: usize,
}

impl View for Lexer {
    type V = Seq<LexerTokenView>;

    /// The tokens not yet taken: those of the source from the position on.
    open spec fn view(&self) -> Seq<LexerTokenView> {
        tokens_from(self.source(), self.position())
    }
}

impl Lexer {
    /// The classified characters that the stream reads.
    pub closed spec fn source(&self) -> Seq<ClassifiedChar> {
        self.chars@
    }

    /// The index in the source of the first character not yet read.
    pub closed spec fn position(&self) -> int {
        self.at as int
    }

    /// Every token that the stream will give is well formed.
    pub proof fn law_tokens_are_well_formed(&self)
        ensures
            forall|k: int| 0 <= k < self@.len() ==> well_formed(#[trigger] self@[k]),
    {
        law_tokens_from_are_well_formed(self.source(), self.position());
    }

    /// A stream over the tokens of `chars`.
    pub fn from_chars(chars: Vec<char>) -> (lexer: Lexer)
        ensures
            lexer.source() == classify(chars@),
            lexer.position() == 0,
            lexer@ == tokenize(chars@),
    {
        let mut classes: Vec<ClassifiedChar> = Vec::new();
        let mut i: usize = 0;
        while i < chars.len()
            invariant
                i <= chars@.len(),
                classes@ == classify(chars@.subrange(0, i as int)),
            decreases chars@.len() - i,
        {
            classes.push(ClassifiedChar::of(chars[i]));
            assert(classes@ =~= classify(chars@.subrange(0, i + 1)));
            i += 1;
        }
        assert(chars@.subrange(0, i as int) == chars@);
        Lexer::from_classified(classes)
    }

    /// A stream over the tokens of characters that come with their
    /// classes.
    pub fn from_classified(chars: Vec<ClassifiedChar>) -> (lexer: Lexer)
        ensures
            lexer.source() == chars@,
            lexer.position() == 0,
            lexer@ == tokens_from(chars@, 0),
    {
        Lexer { chars, at: 0 }
    }

    /// Reads the token at the current position without moving, and says
    /// where the position would be after it.
    fn scan(&self) -> (found: (Option<LexerToken>, usize))
        ensures
            match token_at(self.chars@, self.at as int) {
                Some((token, end)) => found.0 matches Some(t) && t@ == token && found.1 == end,
                None => found.0 is None && found.1 == whitespace_end(self.chars@, self.at as int),
            },
    {
        let n = self.chars.len();
        let mut start = self.at;
        while start < n && self.chars[start].whitespace
            invariant
                n == self.chars@.len(),
                whitespace_end(self.chars@, start as int) == whitespace_end(
                    self.chars@,
                    self.at as int,
                ),
            decreases n - start,
        {
            start += 1;
        }
        if start >= n {
            return (None, start);
        }
        let first = self.chars[start].character;
        let kind = match first {
            '(' => Some(LexerTokenKind::OpenParen),
            ')' => Some(LexerTokenKind::CloseParen),
            '{' => Some(LexerTokenKind::OpenCurly),
            '}' => Some(LexerTokenKind::CloseCurly),
            '+' => Some(LexerTokenKind::Plus),
            '-' => Some(LexerTokenKind::Minus),
            '*' => Some(LexerTokenKind::Multiplication),
            '/' => Some(LexerTokenKind::Division),
            '!' => Some(LexerTokenKind::ExclamationMark),
            ',' => Some(LexerTokenKind::Comma),
            '%' => Some(LexerTokenKind::Mod),
            _ => None,
        };
        assert(kind == punctuation(first));
        if let Some(kind) = kind {
            let mut text = String::new();
            text.push(first);
            return (Some(LexerToken { kind, value: LexerTokenValue::from_string(text) }), start + 1);
        }
        let mut run: Vec<char> = Vec::new();
        run.push(first);
        let mut end = start + 1;
        assert(run@ =~= characters(self.chars@.subrange(start as int, end as int)));
        while end < n && self.chars[end].alphanumeric
            invariant
                n == self.chars@.len(),
                start < end <= n,
                alphanumeric_end(self.chars@, end as int) == alphanumeric_end(
                    self.chars@,
                    start + 1,
                ),
                run@ == characters(self.chars@.subrange(start as int, end as int)),
            decreases n - end,
        {
            run.push(self.chars[end].character);
            end += 1;
            assert(run@ =~= characters(self.chars@.subrange(start as int, end as int)));
        }
        match read_literal(&run) {
            Some(value) => (
                Some(
                    LexerToken { kind: LexerTokenKind::Integer, value: LexerTokenValue::from_int(value) },
                ),
                end,
            ),
            None => {
                let mut text = String::new();
                let mut i: usize = 0;
                while i < run.len()
                    invariant
                        i <= run@.len(),
                        text@ == run@.subrange(0, i as int),
                    decreases run@.len() - i,
                {
                    text.push(run[i]);
                    i += 1;
                }
                assert(run@.subrange(0, run@.len() as int) == run@);
                (
                    Some(
                        LexerToken {
                            kind: LexerTokenKind::Word,
                            value: LexerTokenValue::from_string(text),
                        },
                    ),
                    end,
                )
            },
        }
    }

    /// Takes the next token. Past the last token it keeps answering `None`.
    pub fn next(&mut self) -> (token: Option<LexerToken>)
        ensures
            old(self)@.len() == 0 ==> token is None && final(self)@ == old(self)@,
            old(self)@.len() > 0 ==> (token matches Some(t) && t@ == old(self)@[0]),
            old(self)@.len() > 0 ==> final(self)@ == old(self)@.skip(1),
            final(self).source() == old(self).source(),
            final(self).position() == match token_at(old(self).source(), old(self).position()) {
                Some((_, end)) => end,
                None => whitespace_end(old(self).source(), old(self).position()),
            },
    {
        let (token, end) = self.scan();
        proof {
            let s = self.chars@;
            match token_at(s, self.at as int) {
                Some((first, e)) => {
                    assert(self@ == seq![first] + tokens_from(s, e));
                    assert(self@.skip(1) == tokens_from(s, e));
                },
                None => {
                    lemma_whitespace_end(s, self.at as int);
                    lemma_tokens_after_end(s, end as int);
                },
            }
        }
        self.at = end;
        token
    }

    /// Shows the next token without taking it.
    pub fn peek(&self) -> (token: Option<LexerToken>)
        ensures
            self@.len() == 0 ==> token is None,
            self@.len() > 0 ==> (token matches Some(t) && t@ == self@[0]),
    {
        let (token, _) = self.scan();
        token
    }
}

/// There is no token from a position on that whitespace cannot leave.
proof fn lemma_tokens_after_end(s: Seq<ClassifiedChar>, i: int)
    requires
        whitespace_end(s, i) == i,
        !(0 <= i < s.len()),
    ensures
        tokens_from(s, i) == Seq::<LexerTokenView>::empty(),
{
}

} // verus!
