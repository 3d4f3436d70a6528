//! The whole pipeline: source text in, assembly listing out.

use vstd::prelude::*;
use vstd::utf8::encode_utf8;
use crate::ast::{DangAst, DangBinaryOperationType};
use crate::error::{CompileError, CompileErrorView};
use crate::ir::{IrInstructionType, listing};
use crate::lexer::{
    Lexer, LexerTokenKind, LexerTokenView, classified, classify,
    lemma_punctuation_token, lemma_text_token, tokenize, tokens_from,
};
use crate::lower::{lower_program, opcode, plain, push_int};
use crate::machine::{
    Machine, computes_exactly, exact, law_print_of_operation, lemma_print_of_operation_lowers,
    run, start,
};
use crate::parser::{law_call_of_operation_parses, parse_program};
use crate::text::{decimal_text, digits, is_digit, law_digits_read_back};

verus! {

/// What compiling `source` gives: the listing of the program that its
/// tree lowers to, or the error of the first stage that fails.
pub open spec fn compiled(source: Seq<char>) -> Result<Seq<char>, CompileErrorView> {
    match parse_program(tokenize(source)) {
        Err(e) => Err(CompileErrorView::Parse(e)),
        Ok(tree) => match lower_program(tree) {
            Err(e) => Err(CompileErrorView::Lower(e)),
            Ok(program) => Ok(listing(program)),
        },
    }
}

/// Compiling is deterministic: two source texts with the same characters
/// give the same outcome, and two listings of the same source are equal
/// byte for byte.
pub proof fn law_compiling_is_deterministic(
    first: Seq<char>,
    second: Seq<char>,
    first_listing: Seq<char>,
    second_listing: Seq<char>,
)
    requires
        first == second,
        compiled(first) == Ok::<Seq<char>, CompileErrorView>(first_listing),
        compiled(second) == Ok::<Seq<char>, CompileErrorView>(second_listing),
    ensures
        compiled(first) == compiled(second),
        first_listing == second_listing,
        encode_utf8(first_listing) == encode_utf8(second_listing),
{
}

/// The source text `print!(a op b)`, with one space on each side of the
/// operator.
pub open spec fn print_source(kind: DangBinaryOperationType, a: nat, b: nat) -> Seq<char> {
    seq!['p', 'r', 'i', 'n', 't', '!', '('] + digits(a) + seq![' ', kind.symbol(), ' '] + digits(b)
        + seq![')']
}

/// The token kind of an operator that can be written.
pub open spec fn operator_token(kind: DangBinaryOperationType) -> LexerTokenKind {
    match kind {
        DangBinaryOperationType::Plus => LexerTokenKind::Plus,
        DangBinaryOperationType::Minus => LexerTokenKind::Minus,
        DangBinaryOperationType::Multiplication => LexerTokenKind::Multiplication,
        DangBinaryOperationType::Division => LexerTokenKind::Division,
        DangBinaryOperationType::Mod => LexerTokenKind::Mod,
        DangBinaryOperationType::Power => LexerTokenKind::Word,
    }
}

/// The seven tokens of `print!(a op b)`.
pub open spec fn print_tokens(kind: DangBinaryOperationType, a: i64, b: i64) -> Seq<
    LexerTokenView,
> {
    seq![
        LexerTokenView {
            kind: LexerTokenKind::Word,
            integer: 0,
            string: seq!['p', 'r', 'i', 'n', 't'],
        },
        LexerTokenView { kind: LexerTokenKind::ExclamationMark, integer: 0, string: seq!['!'] },
        LexerTokenView { kind: LexerTokenKind::OpenParen, integer: 0, string: seq!['('] },
        LexerTokenView { kind: LexerTokenKind::Integer, integer: a, string: Seq::empty() },
        LexerTokenView { kind: operator_token(kind), integer: 0, string: seq![kind.symbol()] },
        LexerTokenView { kind: LexerTokenKind::Integer, integer: b, string: Seq::empty() },
        LexerTokenView { kind: LexerTokenKind::CloseParen, integer: 0, string: seq![')'] },
    ]
}

/// The source text `print!(a op b)` has the seven tokens of the call.
pub proof fn law_print_source_tokens(kind: DangBinaryOperationType, a: i64, b: i64)
    requires
        kind != DangBinaryOperationType::Power,
        0 <= a,
        0 <= b,
    ensures
        tokenize(print_source(kind, a as nat, b as nat)) == print_tokens(kind, a, b),
{
    let text = print_source(kind, a as nat, b as nat);
    let s = classify(text);
    let first = digits(a as nat);
    let second = digits(b as nat);
    let p: int = 7 + first.len() as int;
    let q: int = p + 3 + second.len() as int;
    law_digits_read_back(a as nat);
    law_digits_read_back(b as nat);
    assert(text.len() == q + 1);
    assert forall|j: int| 0 <= j < s.len() implies #[trigger] s[j] == classified(text[j]) by {}
    assert forall|j: int| 7 <= j < p implies text[j] == first[j - 7] && is_digit(text[j]) by {
        assert(is_digit(first[j - 7]));
    }
    assert forall|j: int| p + 3 <= j < q implies text[j] == second[j - p - 3] && is_digit(
        text[j],
    ) by {
        assert(is_digit(second[j - p - 3]));
    }
    assert(text[0] == 'p' && text[1] == 'r' && text[2] == 'i' && text[3] == 'n' && text[4] == 't');
    assert(text[5] == '!' && text[6] == '(');
    assert(text[p] == ' ' && text[p + 1] == kind.symbol() && text[p + 2] == ' ');
    assert(text[q] == ')');
    // print
    lemma_text_token(s, 0, 0, 5);
    let name = crate::lexer::characters(s.subrange(0, 5));
    assert(name =~= seq!['p', 'r', 'i', 'n', 't']);
    assert(!is_digit(name[0]));
    // ! and (
    lemma_punctuation_token(s, 5, 5);
    lemma_punctuation_token(s, 6, 6);
    // a
    assert forall|j: int| 7 < j < p implies s[j].alphanumeric by {
        assert(is_digit(text[j]));
    }
    assert(is_digit(text[7]));
    lemma_text_token(s, 7, 7, p);
    assert(crate::lexer::characters(s.subrange(7, p)) =~= first);
    // the operator, after a space
    lemma_punctuation_token(s, p, p + 1);
    // b, after a space
    assert forall|j: int| p + 3 < j < q implies s[j].alphanumeric by {
        assert(is_digit(text[j]));
    }
    assert(is_digit(text[p + 3]));
    lemma_text_token(s, p + 2, p + 3, q);
    assert(crate::lexer::characters(s.subrange(p + 3, q)) =~= second);
    // )
    lemma_punctuation_token(s, q, q);
    let tokens = print_tokens(kind, a, b);
    assert(tokens_from(s, q + 1) =~= Seq::<LexerTokenView>::empty());
    assert(tokens_from(s, q) =~= seq![tokens[6]]);
    assert(tokens_from(s, p + 2) =~= seq![tokens[5]] + tokens_from(s, q));
    assert(tokens_from(s, p) =~= seq![tokens[4]] + tokens_from(s, p + 2));
    assert(tokens_from(s, 7) =~= seq![tokens[3]] + tokens_from(s, p));
    assert(tokens_from(s, 6) =~= seq![tokens[2]] + tokens_from(s, 7));
    assert(tokens_from(s, 5) =~= seq![tokens[1]] + tokens_from(s, 6));
    assert(tokens_from(s, 0) =~= seq![tokens[0]] + tokens_from(s, 5));
    assert(tokens_from(s, 0) =~= tokens);
}

/// From source text to listing and output: `print!(a op b)` compiles to
/// the listing of push `a`, push `b`, the operator's opcode and print, and
/// where the machine computes `a op b` exactly that program prints the
/// decimal text of the result and a newline.
pub proof fn law_print_source_compiles(kind: DangBinaryOperationType, a: i64, b: i64)
    requires
        kind != DangBinaryOperationType::Power,
        0 <= a,
        0 <= b,
    ensures
        compiled(print_source(kind, a as nat, b as nat)) == Ok::<Seq<char>, CompileErrorView>(
            listing(
                seq![
                    push_int(a),
                    push_int(b),
                    opcode(kind)->Ok_0,
                    plain(IrInstructionType::Print),
                ],
            ),
        ),
        computes_exactly(kind, a as int, b as int) ==> run(
            seq![push_int(a), push_int(b), opcode(kind)->Ok_0, plain(IrInstructionType::Print)],
            start(),
        ) == Some(
            Machine {
                stack: Seq::empty(),
                output: decimal_text(exact(kind, a as int, b as int)) + seq!['\n'],
            },
        ),
{
    law_print_source_tokens(kind, a, b);
    let tokens = print_tokens(kind, a, b);
    law_call_of_operation_parses(tokens);
    lemma_print_of_operation_lowers(kind, a, b);
    if computes_exactly(kind, a as int, b as int) {
        law_print_of_operation(kind, a, b);
    }
}

/// The characters of `source`, in order.
pub fn characters(source: &str) -> (chars: Vec<char>)
    ensures
        chars@ == source@,
{
    let mut chars: Vec<char> = Vec::new();
    for c in it: source.chars()
        invariant
            chars@ == it.seq().subrange(0, it.index()),
    {
        chars.push(c);
    }
    chars
}

/// Compiles a source text to a NASM listing. The outcome is a function
/// of the text alone: the same text always gives the same listing, or the
/// same error.
pub fn compile(source: &str) -> (outcome: Result<String, CompileError>)
    ensures
        match compiled(source@) {
            Ok(text) => outcome matches Ok(found) && found@ == text,
            Err(e) => outcome matches Err(found) && found@ == e,
        },
{
    let lexer = Lexer::from_chars(characters(source));
    let tree = match DangAst::from_tokens(lexer) {
        Ok(tree) => tree,
        Err(e) => {
            return Err(CompileError::Parse(e));
        },
    };
    match tree.parse_into_operantions() {
        Ok(program) => Ok(program.to_nasm_linux_x86_64_assembly()),
        Err(e) => Err(CompileError::Lower(e)),
    }
}

} // verus!
