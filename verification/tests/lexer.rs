use dang::lexer::LexerTokenKind::{
    CloseCurly, CloseParen, Comma, Division, ExclamationMark, Integer, Minus, Mod,
    Multiplication, OpenCurly, OpenParen, Plus, Word,
};
use dang::lexer::{ClassifiedChar, Lexer, LexerToken, LexerTokenKind, LexerTokenValue};

fn lexer(source: &str) -> Lexer {
    Lexer::from_chars(source.chars().collect())
}

fn tokens(source: &str) -> Vec<LexerToken> {
    let mut lexer = lexer(source);
    let mut found = Vec::new();
    while let Some(token) = lexer.next() {
        found.push(token);
    }
    found
}

fn kinds(source: &str) -> Vec<LexerTokenKind> {
    tokens(source).iter().map(|token| token.kind).collect()
}

fn word(text: &str) -> LexerToken {
    LexerToken { kind: Word, value: LexerTokenValue::from_string(text.to_string()) }
}

fn integer(value: i64) -> LexerToken {
    LexerToken { kind: Integer, value: LexerTokenValue::from_int(value) }
}

fn mark(kind: LexerTokenKind, text: &str) -> LexerToken {
    LexerToken { kind, value: LexerTokenValue::from_string(text.to_string()) }
}

#[test]
fn tokenizes_a_call_with_two_parameters() {
    assert_eq!(
        kinds("print!(34 + 35, 10)"),
        vec![Word, ExclamationMark, OpenParen, Integer, Plus, Integer, Comma, Integer, CloseParen]
    );
    assert_eq!(
        tokens("print!(34 + 35, 10)"),
        vec![
            word("print"),
            mark(ExclamationMark, "!"),
            mark(OpenParen, "("),
            integer(34),
            mark(Plus, "+"),
            integer(35),
            mark(Comma, ","),
            integer(10),
            mark(CloseParen, ")"),
        ]
    );
}

#[test]
fn every_punctuation_character_is_its_own_token() {
    assert_eq!(
        tokens("(){}+-*/%!,"),
        vec![
            mark(OpenParen, "("),
            mark(CloseParen, ")"),
            mark(OpenCurly, "{"),
            mark(CloseCurly, "}"),
            mark(Plus, "+"),
            mark(Minus, "-"),
            mark(Multiplication, "*"),
            mark(Division, "/"),
            mark(Mod, "%"),
            mark(ExclamationMark, "!"),
            mark(Comma, ","),
        ]
    );
}

#[test]
fn empty_and_blank_input_have_no_tokens() {
    assert_eq!(tokens(""), vec![]);
    assert_eq!(tokens("  \t\n \u{a0}"), vec![]);
}

#[test]
fn next_keeps_answering_none_after_the_end() {
    let mut lexer = lexer("7 ");
    assert_eq!(lexer.next(), Some(integer(7)));
    assert_eq!(lexer.next(), None);
    assert_eq!(lexer.next(), None);
    assert_eq!(lexer.peek(), None);
}

#[test]
fn peek_does_not_consume() {
    let mut lexer = lexer("  print 1");
    assert_eq!(lexer.peek(), Some(word("print")));
    assert_eq!(lexer.peek(), Some(word("print")));
    assert_eq!(lexer.next(), Some(word("print")));
    assert_eq!(lexer.peek(), Some(integer(1)));
    assert_eq!(lexer.next(), Some(integer(1)));
    assert_eq!(lexer.peek(), None);
}

#[test]
fn whitespace_separates_and_is_skipped() {
    assert_eq!(tokens("  12\n\tab  "), vec![integer(12), word("ab")]);
    assert_eq!(tokens("1 2"), vec![integer(1), integer(2)]);
}

#[test]
fn a_text_that_is_not_all_digits_is_a_word() {
    assert_eq!(tokens("12ab"), vec![word("12ab")]);
    assert_eq!(tokens("ab12"), vec![word("ab12")]);
    assert_eq!(tokens("x"), vec![word("x")]);
}

#[test]
fn leading_zeros_still_make_an_integer() {
    assert_eq!(tokens("007"), vec![integer(7)]);
    assert_eq!(tokens("0"), vec![integer(0)]);
}

#[test]
fn the_largest_literal_fits_and_the_next_is_a_word() {
    assert_eq!(tokens("9223372036854775807"), vec![integer(i64::MAX)]);
    assert_eq!(tokens("9223372036854775808"), vec![word("9223372036854775808")]);
    assert_eq!(
        tokens("99999999999999999999999999"),
        vec![word("99999999999999999999999999")]
    );
}

#[test]
fn a_minus_sign_is_never_part_of_a_literal() {
    assert_eq!(tokens("-5"), vec![mark(Minus, "-"), integer(5)]);
}

#[test]
fn a_character_that_is_neither_punctuation_nor_alphanumeric_opens_a_word() {
    assert_eq!(tokens("_"), vec![word("_")]);
    assert_eq!(tokens("#ab"), vec![word("#ab")]);
    assert_eq!(tokens("a_b"), vec![word("a"), word("_b")]);
    assert_eq!(tokens("#1"), vec![word("#1")]);
    assert_eq!(tokens("##"), vec![word("#"), word("#")]);
}

#[test]
fn unicode_letters_and_digits_run_on_as_words() {
    assert_eq!(tokens("h\u{e9}llo w\u{f6}rld"), vec![word("h\u{e9}llo"), word("w\u{f6}rld")]);
    // An Arabic-Indic digit is alphanumeric but no decimal literal.
    assert_eq!(tokens("\u{663}"), vec![word("\u{663}")]);
    assert_eq!(tokens("1\u{663}"), vec![word("1\u{663}")]);
}

#[test]
fn token_values_carry_one_payload() {
    assert_eq!(
        LexerTokenValue::from_string("abc".to_string()),
        LexerTokenValue { integer: 0, string: "abc".to_string() }
    );
    assert_eq!(LexerTokenValue::from_int(-3), LexerTokenValue { integer: -3, string: String::new() });
}

#[test]
fn characters_can_come_with_their_classes() {
    let chars = vec![
        ClassifiedChar { character: ' ', whitespace: true, alphanumeric: false },
        ClassifiedChar { character: '7', whitespace: false, alphanumeric: true },
        ClassifiedChar { character: '+', whitespace: false, alphanumeric: false },
        ClassifiedChar { character: 'x', whitespace: false, alphanumeric: true },
        ClassifiedChar { character: '1', whitespace: false, alphanumeric: true },
    ];
    let mut lexer = Lexer::from_classified(chars);
    assert_eq!(lexer.next(), Some(integer(7)));
    assert_eq!(lexer.next(), Some(mark(Plus, "+")));
    assert_eq!(lexer.next(), Some(word("x1")));
    assert_eq!(lexer.next(), None);
}

#[test]
fn the_classes_given_decide_not_the_characters() {
    // A space that is classed as alphanumeric runs on with its neighbours,
    // and a letter classed as whitespace is skipped.
    let chars = vec![
        ClassifiedChar { character: 'a', whitespace: true, alphanumeric: true },
        ClassifiedChar { character: 'b', whitespace: false, alphanumeric: true },
        ClassifiedChar { character: ' ', whitespace: false, alphanumeric: true },
        ClassifiedChar { character: 'c', whitespace: false, alphanumeric: false },
    ];
    let mut lexer = Lexer::from_classified(chars);
    assert_eq!(lexer.next(), Some(word("b ")));
    assert_eq!(lexer.next(), Some(word("c")));
    assert_eq!(lexer.next(), None);
}

#[test]
fn ascii_characters_are_classified_as_unicode_has_them() {
    for code in 0u8..128 {
        let c = code as char;
        let class = ClassifiedChar::of(c);
        assert_eq!(class.character, c);
        assert_eq!(class.whitespace, c == ' ' || ('\t'..='\r').contains(&c), "{:?}", c);
        assert_eq!(class.alphanumeric, c.is_ascii_alphanumeric(), "{:?}", c);
    }
    assert_eq!(
        ClassifiedChar::of('\u{a0}'),
        ClassifiedChar { character: '\u{a0}', whitespace: true, alphanumeric: false }
    );
    assert_eq!(
        ClassifiedChar::of('\u{e9}'),
        ClassifiedChar { character: '\u{e9}', whitespace: false, alphanumeric: true }
    );
    assert_eq!(
        ClassifiedChar::of('\u{663}'),
        ClassifiedChar { character: '\u{663}', whitespace: false, alphanumeric: true }
    );
}

fn white_space(c: char) -> bool {
    matches!(
        c as u32,
        0x0009..=0x000D
            | 0x0020
            | 0x0085
            | 0x00A0
            | 0x1680
            | 0x2000..=0x200A
            | 0x2028
            | 0x2029
            | 0x202F
            | 0x205F
            | 0x3000
    )
}

#[test]
fn whitespace_is_the_white_space_property_for_every_character() {
    let mut count = 0;
    for code in 0u32..=0x10FFFF {
        if let Some(c) = char::from_u32(code) {
            assert_eq!(ClassifiedChar::of(c).whitespace, white_space(c), "U+{:04X}", code);
            if white_space(c) {
                count += 1;
                assert!(!ClassifiedChar::of(c).alphanumeric, "U+{:04X}", code);
            }
        }
    }
    assert_eq!(count, 25);
}
