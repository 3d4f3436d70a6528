use dang::ast::{
    DangAst, DangBinaryOperationType, DangBlock, DangExpression, DangFunctionCall,
    DangOperation, DangStatement,
};

fn sum(first: i64, second: i64) -> DangStatement {
    DangStatement::Operation(DangOperation::new(
        DangBinaryOperationType::Plus,
        DangStatement::Number(first),
        DangStatement::Number(second),
    ))
}

fn print_of(parameters: Vec<DangStatement>) -> DangStatement {
    DangStatement::FunctionCall(DangFunctionCall {
        name: "print".to_string(),
        parameters,
        is_built_in: true,
    })
}

#[test]
fn operators_are_written_as_their_symbol() {
    assert_eq!(DangBinaryOperationType::Plus.as_string(), "+");
    assert_eq!(DangBinaryOperationType::Minus.as_string(), "-");
    assert_eq!(DangBinaryOperationType::Division.as_string(), "/");
    assert_eq!(DangBinaryOperationType::Multiplication.as_string(), "*");
    assert_eq!(DangBinaryOperationType::Mod.as_string(), "%");
    assert_eq!(DangBinaryOperationType::Power.as_string(), "^");
}

#[test]
fn a_program_of_two_prints_renders_as_a_list() {
    let ast = DangAst { ast: vec![print_of(vec![sum(34, 35)]), print_of(vec![sum(34, 35)])] };
    assert_eq!(ast.to_string(), "[print((34 + 35)), print((34 + 35))]");
}

#[test]
fn an_empty_program_renders_as_empty_brackets() {
    assert_eq!(DangAst::new().to_string(), "[]");
    assert_eq!(DangAst::new().ast.len(), 0);
}

#[test]
fn an_operation_renders_in_parentheses() {
    let operation = DangOperation::new(
        DangBinaryOperationType::Power,
        sum(1, -2),
        DangStatement::Name("x".to_string()),
    );
    assert_eq!(operation.to_string(), "((1 + -2) ^ x)");
    assert_eq!(operation.binary_operation_type, DangBinaryOperationType::Power);
    assert_eq!(*operation.first_operand, sum(1, -2));
    assert_eq!(*operation.second_operand, DangStatement::Name("x".to_string()));
}

#[test]
fn numbers_render_in_decimal() {
    assert_eq!(DangStatement::Number(0).to_string(), "0");
    assert_eq!(DangStatement::Number(-40).to_string(), "-40");
    assert_eq!(DangStatement::Number(i64::MIN).to_string(), "-9223372036854775808");
    assert_eq!(DangStatement::Number(i64::MAX).to_string(), "9223372036854775807");
}

#[test]
fn names_render_as_they_are() {
    assert_eq!(DangStatement::Name("total".to_string()).to_string(), "total");
    assert_eq!(DangStatement::Name(String::new()).to_string(), "");
}

#[test]
fn an_expression_renders_in_round_brackets() {
    let mut expression = DangExpression::new();
    assert!(expression.is_empty());
    assert_eq!(expression.to_string(), "()");
    expression.symbols.push(DangStatement::Number(1));
    assert!(!expression.is_empty());
    assert_eq!(expression.to_string(), "(1)");
    expression.symbols.push(sum(2, 3));
    expression.symbols.push(DangStatement::Name("x".to_string()));
    assert_eq!(expression.to_string(), "(1, (2 + 3), x)");
    assert_eq!(DangStatement::Expression(expression).to_string(), "(1, (2 + 3), x)");
}

#[test]
fn a_block_renders_in_curly_brackets() {
    let mut block = DangBlock::new();
    assert!(block.is_empty());
    assert_eq!(block.to_string(), "{}");
    block.symbols.push(print_of(vec![DangStatement::Number(1)]));
    block.symbols.push(DangStatement::Number(2));
    assert!(!block.is_empty());
    assert_eq!(block.to_string(), "{print(1), 2}");
    assert_eq!(DangStatement::Block(block).to_string(), "{print(1), 2}");
}

#[test]
fn a_call_renders_as_name_and_parameters() {
    let mut call = DangFunctionCall::new();
    assert!(call.is_empty());
    assert_eq!(call.name, "");
    assert!(!call.is_built_in);
    assert_eq!(call.to_string(), "()");
    call.name = "f".to_string();
    assert!(!call.is_empty());
    assert_eq!(call.to_string(), "f()");
    call.parameters.push(DangStatement::Number(1));
    call.parameters.push(sum(2, 3));
    assert_eq!(call.to_string(), "f(1, (2 + 3))");
    call.is_built_in = true;
    assert_eq!(call.to_string(), "f(1, (2 + 3))");
    call.name = String::new();
    assert!(!call.is_empty());
    assert_eq!(DangStatement::FunctionCall(call).to_string(), "(1, (2 + 3))");
}
