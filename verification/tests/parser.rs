use dang::ast::{
    DangAst, DangBinaryOperationType, DangFunctionCall, DangOperation, DangStatement,
};
use dang::error::ParseError;
use dang::lexer::{Lexer, LexerToken, LexerTokenKind, LexerTokenValue};

fn parse(source: &str) -> Result<DangAst, ParseError> {
    DangAst::from_tokens(Lexer::from_chars(source.chars().collect()))
}

fn mark(kind: LexerTokenKind, text: &str) -> LexerToken {
    LexerToken { kind, value: LexerTokenValue::from_string(text.to_string()) }
}

fn word(text: &str) -> LexerToken {
    mark(LexerTokenKind::Word, text)
}

fn integer(value: i64) -> LexerToken {
    LexerToken { kind: LexerTokenKind::Integer, value: LexerTokenValue::from_int(value) }
}

fn operation(kind: DangBinaryOperationType, first: i64, second: i64) -> DangStatement {
    DangStatement::Operation(DangOperation::new(
        kind,
        DangStatement::Number(first),
        DangStatement::Number(second),
    ))
}

fn call(name: &str, is_built_in: bool, parameters: Vec<DangStatement>) -> DangAst {
    DangAst {
        ast: vec![DangStatement::FunctionCall(DangFunctionCall {
            name: name.to_string(),
            parameters,
            is_built_in,
        })],
    }
}

#[test]
fn parses_a_built_in_call_with_one_operation() {
    let ast = parse("print!(34 + 35)").unwrap();
    assert_eq!(ast.ast.len(), 1);
    match &ast.ast[0] {
        DangStatement::FunctionCall(found) => {
            assert_eq!(found.name, "print");
            assert!(found.is_built_in);
            assert_eq!(found.parameters.len(), 1);
            match &found.parameters[0] {
                DangStatement::Operation(op) => {
                    assert_eq!(op.binary_operation_type, DangBinaryOperationType::Plus);
                    assert_eq!(*op.first_operand, DangStatement::Number(34));
                    assert_eq!(*op.second_operand, DangStatement::Number(35));
                }
                other => panic!("not an operation: {:?}", other),
            }
        }
        other => panic!("not a call: {:?}", other),
    }
}

#[test]
fn parses_each_operator() {
    assert_eq!(
        parse("print!(7 + 2, 7 - 2, 7 * 2, 7 / 2, 7 % 2)"),
        Ok(call(
            "print",
            true,
            vec![
                operation(DangBinaryOperationType::Plus, 7, 2),
                operation(DangBinaryOperationType::Minus, 7, 2),
                operation(DangBinaryOperationType::Multiplication, 7, 2),
                operation(DangBinaryOperationType::Division, 7, 2),
                operation(DangBinaryOperationType::Mod, 7, 2),
            ]
        ))
    );
}

#[test]
fn a_comma_separates_parameters() {
    assert_eq!(
        parse("print!(34 + 35, 10)"),
        Ok(call(
            "print",
            true,
            vec![operation(DangBinaryOperationType::Plus, 34, 35), DangStatement::Number(10)]
        ))
    );
    assert_eq!(
        parse("print!(1, 2)"),
        Ok(call("print", true, vec![DangStatement::Number(1), DangStatement::Number(2)]))
    );
    assert_eq!(
        parse("f(1, 2 * 3, 4)"),
        Ok(call(
            "f",
            false,
            vec![
                DangStatement::Number(1),
                operation(DangBinaryOperationType::Multiplication, 2, 3),
                DangStatement::Number(4),
            ]
        ))
    );
}

#[test]
fn a_comma_with_nothing_before_it_adds_no_parameter() {
    assert_eq!(parse("print!(,)"), Ok(call("print", true, vec![])));
    assert_eq!(parse("print!(1,)"), Ok(call("print", true, vec![DangStatement::Number(1)])));
    assert_eq!(
        parse("print!(1 + 2,,3)"),
        Ok(call(
            "print",
            true,
            vec![operation(DangBinaryOperationType::Plus, 1, 2), DangStatement::Number(3)]
        ))
    );
}

#[test]
fn a_call_without_an_exclamation_mark_is_not_built_in() {
    assert_eq!(parse("print(1)"), Ok(call("print", false, vec![DangStatement::Number(1)])));
    assert_eq!(parse("f()"), Ok(call("f", false, vec![])));
    assert_eq!(parse("f!()"), Ok(call("f", true, vec![])));
}

#[test]
fn a_bare_integer_is_a_literal_statement() {
    assert_eq!(parse("42"), Ok(DangAst { ast: vec![DangStatement::Number(42)] }));
    assert_eq!(parse("  0  "), Ok(DangAst { ast: vec![DangStatement::Number(0)] }));
}

#[test]
fn only_the_first_top_level_form_is_read() {
    assert_eq!(parse("42 print!(1)"), Ok(DangAst { ast: vec![DangStatement::Number(42)] }));
    assert_eq!(parse("f() )))"), Ok(call("f", false, vec![])));
}

#[test]
fn the_operator_takes_the_value_stacked_last() {
    assert_eq!(
        parse("f(1 2 + 3)"),
        Ok(call(
            "f",
            false,
            vec![operation(DangBinaryOperationType::Plus, 2, 3), DangStatement::Number(1)]
        ))
    );
}

#[test]
fn empty_input_ends_unexpectedly() {
    assert_eq!(parse(""), Err(ParseError::UnexpectedEnd));
    assert_eq!(parse("   \n"), Err(ParseError::UnexpectedEnd));
}

#[test]
fn a_top_level_form_must_start_with_a_word_or_an_integer() {
    assert_eq!(parse("(1)"), Err(ParseError::UnexpectedTopLevel(mark(LexerTokenKind::OpenParen, "("))));
    assert_eq!(parse("+"), Err(ParseError::UnexpectedTopLevel(mark(LexerTokenKind::Plus, "+"))));
    assert_eq!(parse("{"), Err(ParseError::UnexpectedTopLevel(mark(LexerTokenKind::OpenCurly, "{"))));
    assert_eq!(parse("!print(1)"), Err(ParseError::UnexpectedTopLevel(mark(LexerTokenKind::ExclamationMark, "!"))));
    assert_eq!(parse("-5"), Err(ParseError::UnexpectedTopLevel(mark(LexerTokenKind::Minus, "-"))));
}

#[test]
fn a_call_needs_its_opening_parenthesis() {
    assert_eq!(parse("print"), Err(ParseError::UnexpectedEnd));
    assert_eq!(parse("print!"), Err(ParseError::UnexpectedEnd));
    assert_eq!(parse("print 1"), Err(ParseError::UnexpectedTopLevel(integer(1))));
    assert_eq!(parse("print!!(1)"), Err(ParseError::UnexpectedTopLevel(mark(LexerTokenKind::ExclamationMark, "!"))));
    assert_eq!(parse("print!)"), Err(ParseError::UnexpectedTopLevel(mark(LexerTokenKind::CloseParen, ")"))));
    assert_eq!(parse("unknown_builtin!(1)"), Err(ParseError::UnexpectedTopLevel(word("_builtin"))));
}

#[test]
fn a_parameter_list_must_be_closed() {
    assert_eq!(parse("print!("), Err(ParseError::UnexpectedEnd));
    assert_eq!(parse("print!(1"), Err(ParseError::UnexpectedEnd));
    assert_eq!(parse("print!(1 + 2,"), Err(ParseError::UnexpectedEnd));
    assert_eq!(parse("print!(1 +"), Err(ParseError::UnexpectedEnd));
}

#[test]
fn only_integers_operators_and_commas_stand_in_a_parameter_list() {
    assert_eq!(parse("print!(x)"), Err(ParseError::UnexpectedInParameters(word("x"))));
    assert_eq!(parse("print!((1))"), Err(ParseError::UnexpectedInParameters(mark(LexerTokenKind::OpenParen, "("))));
    assert_eq!(parse("print!({})"), Err(ParseError::UnexpectedInParameters(mark(LexerTokenKind::OpenCurly, "{"))));
    assert_eq!(parse("print!(})"), Err(ParseError::UnexpectedInParameters(mark(LexerTokenKind::CloseCurly, "}"))));
    assert_eq!(parse("print!(1!)"), Err(ParseError::UnexpectedInParameters(mark(LexerTokenKind::ExclamationMark, "!"))));
}

#[test]
fn the_second_operand_must_be_an_integer() {
    assert_eq!(parse("print!(1 + x)"), Err(ParseError::UnexpectedInParameters(word("x"))));
    assert_eq!(parse("print!(1 + )"), Err(ParseError::UnexpectedInParameters(mark(LexerTokenKind::CloseParen, ")"))));
    assert_eq!(parse("print!(1 + + 2)"), Err(ParseError::UnexpectedInParameters(mark(LexerTokenKind::Plus, "+"))));
    assert_eq!(parse("print!(1 - -2)"), Err(ParseError::UnexpectedInParameters(mark(LexerTokenKind::Minus, "-"))));
    assert_eq!(parse("print!(1 * (2))"), Err(ParseError::UnexpectedInParameters(mark(LexerTokenKind::OpenParen, "("))));
}

#[test]
fn a_second_operator_finds_no_value() {
    assert_eq!(
        parse("print!(1 + 2 + 3)"),
        Err(ParseError::MalformedOperands(mark(LexerTokenKind::Plus, "+")))
    );
    assert_eq!(
        parse("print!(1 + 2 * 3)"),
        Err(ParseError::MalformedOperands(mark(LexerTokenKind::Multiplication, "*")))
    );
}

#[test]
fn an_operator_needs_a_value_before_it() {
    assert_eq!(
        parse("print!(+ 1)"),
        Err(ParseError::MalformedOperands(mark(LexerTokenKind::Plus, "+")))
    );
    assert_eq!(
        parse("print!(1, * 2)"),
        Err(ParseError::MalformedOperands(mark(LexerTokenKind::Multiplication, "*")))
    );
    assert_eq!(
        parse("print!(-5)"),
        Err(ParseError::MalformedOperands(mark(LexerTokenKind::Minus, "-")))
    );
}

#[test]
fn a_parameter_may_not_end_with_two_values() {
    assert_eq!(
        parse("print!(1 2)"),
        Err(ParseError::MalformedOperands(mark(LexerTokenKind::CloseParen, ")")))
    );
    assert_eq!(
        parse("print!(1 2, 3)"),
        Err(ParseError::MalformedOperands(mark(LexerTokenKind::Comma, ",")))
    );
    assert_eq!(
        parse("print!(1 2 3 + 4)"),
        Err(ParseError::MalformedOperands(mark(LexerTokenKind::CloseParen, ")")))
    );
}

#[test]
fn statements_and_calls_parse_on_their_own() {
    let statement = DangStatement::from_tokens(Lexer::from_chars("9".chars().collect()));
    assert_eq!(statement, Ok(DangStatement::Number(9)));
    let found = DangFunctionCall::from_tokens(Lexer::from_chars("f!(1)".chars().collect()));
    assert_eq!(
        found,
        Ok(DangFunctionCall {
            name: "f".to_string(),
            parameters: vec![DangStatement::Number(1)],
            is_built_in: true,
        })
    );
    let no_call = DangFunctionCall::from_tokens(Lexer::from_chars("9".chars().collect()));
    assert_eq!(no_call, Err(ParseError::UnexpectedTopLevel(integer(9))));
    let nothing = DangFunctionCall::from_tokens(Lexer::from_chars("".chars().collect()));
    assert_eq!(nothing, Err(ParseError::UnexpectedEnd));
}
