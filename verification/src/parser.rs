//! The parser: from a stream of tokens to one top-level statement.

use vstd::prelude::*;
use crate::ast::{
    DangAst, DangBinaryOperationType, DangFunctionCall, DangOperation, DangStatement,
    FunctionCallView, OperationView, StatementView, statement_view, statements_view,
};
use crate::error::{ParseError, ParseErrorView};
use crate::lexer::{Lexer, LexerToken, LexerTokenKind, LexerTokenView};

verus! {

/// The operator that a token of this kind stands for, if it is one.
pub open spec fn operator(kind: LexerTokenKind) -> Option<DangBinaryOperationType> {
    match kind {
        LexerTokenKind::Plus => Some(DangBinaryOperationType::Plus),
        LexerTokenKind::Minus => Some(DangBinaryOperationType::Minus),
        LexerTokenKind::Multiplication => Some(DangBinaryOperationType::Multiplication),
        LexerTokenKind::Division => Some(DangBinaryOperationType::Division),
        LexerTokenKind::Mod => Some(DangBinaryOperationType::Mod),
        _ => None,
    }
}

/// The operation `first op second` on two literals.
pub open spec fn literal_operation(
    kind: DangBinaryOperationType,
    first: i64,
    second: i64,
) -> StatementView {
    StatementView::Operation(
        OperationView {
            binary_operation_type: kind,
            first_operand: Box::new(StatementView::Number(first)),
            second_operand: Box::new(StatementView::Number(second)),
        },
    )
}

/// What the end of a parameter makes of the values still stacked: none
/// adds nothing, exactly one becomes a literal parameter, more are an
/// error at the token that ends the parameter.
pub open spec fn close_parameter(
    stack: Seq<i64>,
    parameters: Seq<StatementView>,
    end: LexerTokenView,
) -> Result<Seq<StatementView>, ParseErrorView> {
    if stack.len() == 0 {
        Ok(parameters)
    } else if stack.len() == 1 {
        Ok(parameters.push(StatementView::Number(stack[0])))
    } else {
        Err(ParseErrorView::MalformedOperands(end))
    }
}

/// The parameters that `tokens` complete, read up to the closing
/// parenthesis, given the values stacked and the parameters made so far.
///
/// An integer is stacked. An operator takes the value stacked last as
/// its first operand and the next token, which must be an integer, as its
/// second, and makes a parameter of the two. A comma and the closing
/// parenthesis end a parameter. No other token may stand in the list.
pub open spec fn parse_parameters(
    tokens: Seq<LexerTokenView>,
    stack: Seq<i64>,
    parameters: Seq<StatementView>,
) -> Result<Seq<StatementView>, ParseErrorView>
    decreases tokens.len(),
{
    if tokens.len() == 0 {
        Err(ParseErrorView::UnexpectedEnd)
    } else {
        let token = tokens[0];
        if token.kind == LexerTokenKind::CloseParen {
            close_parameter(stack, parameters, token)
        } else if token.kind == LexerTokenKind::Comma {
            match close_parameter(stack, parameters, token) {
                Ok(closed) => parse_parameters(tokens.skip(1), Seq::empty(), closed),
                Err(e) => Err(e),
            }
        } else if token.kind == LexerTokenKind::Integer {
            parse_parameters(tokens.skip(1), stack.push(token.integer), parameters)
        } else {
            match operator(token.kind) {
                None => Err(ParseErrorView::UnexpectedInParameters(token)),
                Some(kind) => if stack.len() == 0 {
                    Err(ParseErrorView::MalformedOperands(token))
                } else if tokens.len() == 1 {
                    Err(ParseErrorView::UnexpectedEnd)
                } else if tokens[1].kind != LexerTokenKind::Integer {
                    Err(ParseErrorView::UnexpectedInParameters(tokens[1]))
                } else {
                    parse_parameters(
                        tokens.skip(2),
                        stack.drop_last(),
                        parameters.push(literal_operation(kind, stack.last(), tokens[1].integer)),
                    )
                },
            }
        }
    }
}

/// The call that `tokens` begin with: a word, an exclamation mark if the
/// call is built-in, an opening parenthesis and the parameters.
pub open spec fn parse_function_call(tokens: Seq<LexerTokenView>) -> Result<
    FunctionCallView,
    ParseErrorView,
> {
    if tokens.len() == 0 {
        Err(ParseErrorView::UnexpectedEnd)
    } else if tokens[0].kind != LexerTokenKind::Word {
        Err(ParseErrorView::UnexpectedTopLevel(tokens[0]))
    } else {
        let is_built_in = tokens.len() > 1 && tokens[1].kind == LexerTokenKind::ExclamationMark;
        let rest = if is_built_in {
            tokens.skip(2)
        } else {
            tokens.skip(1)
        };
        if rest.len() == 0 {
            Err(ParseErrorView::UnexpectedEnd)
        } else if rest[0].kind != LexerTokenKind::OpenParen {
            Err(ParseErrorView::UnexpectedTopLevel(rest[0]))
        } else {
            match parse_parameters(rest.skip(1), Seq::empty(), Seq::empty()) {
                Ok(parameters) => Ok(
                    FunctionCallView { name: tokens[0].string, parameters, is_built_in },
                ),
                Err(e) => Err(e),
            }
        }
    }
}

/// The top-level statement that `tokens` begin with: a call if the first
/// token is a word, a literal if it is an integer.
pub open spec fn parse_statement(tokens: Seq<LexerTokenView>) -> Result<StatementView, ParseErrorView> {
    if tokens.len() == 0 {
        Err(ParseErrorView::UnexpectedEnd)
    } else if tokens[0].kind == LexerTokenKind::Word {
        match parse_function_call(tokens) {
            Ok(call) => Ok(StatementView::FunctionCall(call)),
            Err(e) => Err(e),
        }
    } else if tokens[0].kind == LexerTokenKind::Integer {
        Ok(StatementView::Number(tokens[0].integer))
    } else {
        Err(ParseErrorView::UnexpectedTopLevel(tokens[0]))
    }
}

/// The program that `tokens` make: their one top-level statement.
pub open spec fn parse_program(tokens: Seq<LexerTokenView>) -> Result<
    Seq<StatementView>,
    ParseErrorView,
> {
    match parse_statement(tokens) {
        Ok(statement) => Ok(seq![statement]),
        Err(e) => Err(e),
    }
}

/// The seven tokens of a built-in call on one operation of two literals
/// parse to that call: its name is the word's text, its one parameter the
/// operation with the literals in the order written.
pub proof fn law_call_of_operation_parses(tokens: Seq<LexerTokenView>)
    requires
        tokens.len() == 7,
        tokens[0].kind == LexerTokenKind::Word,
        tokens[1].kind == LexerTokenKind::ExclamationMark,
        tokens[2].kind == LexerTokenKind::OpenParen,
        tokens[3].kind == LexerTokenKind::Integer,
        operator(tokens[4].kind) is Some,
        tokens[5].kind == LexerTokenKind::Integer,
        tokens[6].kind == LexerTokenKind::CloseParen,
    ensures
        parse_program(tokens) == Ok::<Seq<StatementView>, ParseErrorView>(
            seq![
                StatementView::FunctionCall(
                    FunctionCallView {
                        name: tokens[0].string,
                        parameters: seq![
                            literal_operation(
                                operator(tokens[4].kind)->Some_0,
                                tokens[3].integer,
                                tokens[5].integer,
                            ),
                        ],
                        is_built_in: true,
                    },
                ),
            ],
        ),
{
    let list = tokens.skip(2).skip(1);
    let kind = operator(tokens[4].kind)->Some_0;
    let parameter = literal_operation(kind, tokens[3].integer, tokens[5].integer);
    let empty = Seq::<StatementView>::empty();
    assert(list.skip(1).skip(2) =~= seq![tokens[6]]);
    assert(seq![tokens[3].integer].drop_last() =~= Seq::<i64>::empty());
    assert(parse_parameters(list.skip(1).skip(2), Seq::empty(), empty.push(parameter)) == Ok::<
        Seq<StatementView>,
        ParseErrorView,
    >(empty.push(parameter)));
    assert(parse_parameters(list.skip(1), Seq::<i64>::empty().push(tokens[3].integer), empty)
        == Ok::<Seq<StatementView>, ParseErrorView>(empty.push(parameter)));
    assert(parse_parameters(list, Seq::empty(), empty) == Ok::<Seq<StatementView>, ParseErrorView>(
        empty.push(parameter),
    ));
    assert(empty.push(parameter) =~= seq![parameter]);
}

/// In a parameter list that opens with `a op b op`, the second operator
/// finds no value to take: operations do not chain, and the list is
/// rejected whatever follows.
pub proof fn law_second_operator_is_rejected(
    tokens: Seq<LexerTokenView>,
    parameters: Seq<StatementView>,
)
    requires
        tokens.len() >= 4,
        tokens[0].kind == LexerTokenKind::Integer,
        operator(tokens[1].kind) is Some,
        tokens[2].kind == LexerTokenKind::Integer,
        operator(tokens[3].kind) is Some,
    ensures
        parse_parameters(tokens, Seq::empty(), parameters) == Err::<Seq<StatementView>, ParseErrorView>(
            ParseErrorView::MalformedOperands(tokens[3]),
        ),
{
    let stacked = Seq::<i64>::empty().push(tokens[0].integer);
    let kind = operator(tokens[1].kind)->Some_0;
    let made = parameters.push(literal_operation(kind, stacked.last(), tokens[2].integer));
    assert(stacked.drop_last() =~= Seq::<i64>::empty());
    assert(parse_parameters(tokens.skip(1).skip(2), Seq::empty(), made) == Err::<
        Seq<StatementView>,
        ParseErrorView,
    >(ParseErrorView::MalformedOperands(tokens[3])));
    assert(parse_parameters(tokens.skip(1), stacked, parameters) == Err::<
        Seq<StatementView>,
        ParseErrorView,
    >(ParseErrorView::MalformedOperands(tokens[3])));
}

fn operator_of(kind: LexerTokenKind) -> (found: Option<DangBinaryOperationType>)
    ensures
        found == operator(kind),
{
    match kind {
        LexerTokenKind::Plus => Some(DangBinaryOperationType::Plus),
        LexerTokenKind::Minus => Some(DangBinaryOperationType::Minus),
        LexerTokenKind::Multiplication => Some(DangBinaryOperationType::Multiplication),
        LexerTokenKind::Division => Some(DangBinaryOperationType::Division),
        LexerTokenKind::Mod => Some(DangBinaryOperationType::Mod),
        _ => None,
    }
}

/// Ends a parameter: moves the one stacked value, if any, to `parameters`.
fn close_parameter_into(
    stack: &mut Vec<i64>,
    parameters: &mut Vec<DangStatement>,
    end: LexerToken,
) -> (outcome: Result<(), ParseError>)
    ensures
        match close_parameter(old(stack)@, statements_view(old(parameters)@), end@) {
            Ok(closed) => {
                &&& outcome is Ok
                &&& statements_view(final(parameters)@) == closed
                &&& final(stack)@.len() == 0
            },
            Err(e) => outcome matches Err(found) && found@ == e,
        },
{
    if stack.len() > 1 {
        return Err(ParseError::MalformedOperands(end));
    }
    match stack.pop() {
        Some(value) => {
            parameters.push(DangStatement::Number(value));
            assert(statements_view(parameters@) =~= statements_view(old(parameters)@).push(
                StatementView::Number(value),
            ));
        },
        None => {},
    }
    Ok(())
}

/// Reads a parameter list, from after its opening parenthesis up to the
/// closing one.
fn read_parameters(lexer: Lexer) -> (parameters: Result<Vec<DangStatement>, ParseError>)
    ensures
        match parse_parameters(lexer@, Seq::empty(), Seq::empty()) {
            Ok(views) => parameters matches Ok(found) && statements_view(found@) == views,
            Err(e) => parameters matches Err(found) && found@ == e,
        },
{
    let mut stream = lexer;
    let ghost goal = parse_parameters(lexer@, Seq::empty(), Seq::empty());
    let mut stack: Vec<i64> = Vec::new();
    let mut parameters: Vec<DangStatement> = Vec::new();
    assert(statements_view(parameters@) =~= Seq::empty());
    loop
        invariant
            goal == parse_parameters(lexer@, Seq::empty(), Seq::empty()),
            parse_parameters(stream@, stack@, statements_view(parameters@)) == goal,
        decreases stream@.len(),
    {
        let ghost tokens = stream@;
        let token = match stream.next() {
            Some(token) => token,
            None => {
                return Err(ParseError::UnexpectedEnd);
            },
        };
        match token.kind {
            LexerTokenKind::CloseParen => {
                return match close_parameter_into(&mut stack, &mut parameters, token) {
                    Ok(()) => Ok(parameters),
                    Err(e) => Err(e),
                };
            },
            LexerTokenKind::Comma => {
                match close_parameter_into(&mut stack, &mut parameters, token) {
                    Ok(()) => {
                        assert(stack@ =~= Seq::empty());
                    },
                    Err(e) => {
                        return Err(e);
                    },
                }
            },
            LexerTokenKind::Integer => {
                stack.push(token.value.integer);
            },
            kind => {
                let operation_type = match operator_of(kind) {
                    Some(operation_type) => operation_type,
                    None => {
                        return Err(ParseError::UnexpectedInParameters(token));
                    },
                };
                let first = match stack.pop() {
                    Some(first) => first,
                    None => {
                        return Err(ParseError::MalformedOperands(token));
                    },
                };
                let second = match stream.next() {
                    Some(second) => second,
                    None => {
                        return Err(ParseError::UnexpectedEnd);
                    },
                };
                if second.kind != LexerTokenKind::Integer {
                    return Err(ParseError::UnexpectedInParameters(second));
                }
                let ghost before = statements_view(parameters@);
                parameters.push(
                    DangStatement::Operation(
                        DangOperation::new(
                            operation_type,
                            DangStatement::Number(first),
                            DangStatement::Number(second.value.integer),
                        ),
                    ),
                );
                proof {
                    let second_value = second.value.integer;
                    assert(statement_view(DangStatement::Number(first)) == StatementView::Number(
                        first,
                    ));
                    assert(statement_view(DangStatement::Number(second_value))
                        == StatementView::Number(second_value));
                    assert(statement_view(parameters@.last()) == literal_operation(
                        operation_type,
                        first,
                        second_value,
                    ));
                    assert(statements_view(parameters@) =~= before.push(
                        literal_operation(operation_type, first, second.value.integer),
                    ));
                    assert(stream@ == tokens.skip(2));
                }
            },
        }
    }
}

impl DangFunctionCall {
    /// Reads a call: its name, `!` for a built-in, and its parameters in
    /// parentheses.
    pub fn from_tokens(lexer: Lexer) -> (call: Result<DangFunctionCall, ParseError>)
        ensures
            match parse_function_call(lexer@) {
                Ok(view) => call matches Ok(found) && found@ == view,
                Err(e) => call matches Err(found) && found@ == e,
            },
    {
        let mut lexer = lexer;
        let ghost tokens = lexer@;
        let name = match lexer.next() {
            Some(name) => name,
            None => {
                return Err(ParseError::UnexpectedEnd);
            },
        };
        if name.kind != LexerTokenKind::Word {
            return Err(ParseError::UnexpectedTopLevel(name));
        }
        let is_built_in = match lexer.peek() {
            Some(mark) => mark.kind == LexerTokenKind::ExclamationMark,
            None => false,
        };
        if is_built_in {
            let _ = lexer.next();
            assert(lexer@ == tokens.skip(2));
        }
        match lexer.next() {
            Some(open) => {
                if open.kind != LexerTokenKind::OpenParen {
                    return Err(ParseError::UnexpectedTopLevel(open));
                }
            },
            None => {
                return Err(ParseError::UnexpectedEnd);
            },
        }
        match read_parameters(lexer) {
            Ok(parameters) => Ok(
                DangFunctionCall { name: name.value.string, parameters, is_built_in },
            ),
            Err(e) => Err(e),
        }
    }
}

impl DangStatement {
    /// Reads one top-level statement, choosing its form by the first token.
    pub fn from_tokens(lexer: Lexer) -> (statement: Result<DangStatement, ParseError>)
        ensures
            match parse_statement(lexer@) {
                Ok(view) => statement matches Ok(found) && found@ == view,
                Err(e) => statement matches Err(found) && found@ == e,
            },
    {
        match lexer.peek() {
            None => Err(ParseError::UnexpectedEnd),
            Some(first) => match first.kind {
                LexerTokenKind::Word => match DangFunctionCall::from_tokens(lexer) {
                    Ok(call) => Ok(DangStatement::FunctionCall(call)),
                    Err(e) => Err(e),
                },
                LexerTokenKind::Integer => Ok(DangStatement::Number(first.value.integer)),
                _ => Err(ParseError::UnexpectedTopLevel(first)),
            },
        }
    }
}

impl DangAst {
    /// Reads a program: one top-level statement.
    pub fn from_tokens(lexer: Lexer) -> (ast: Result<DangAst, ParseError>)
        ensures
            match parse_program(lexer@) {
                Ok(view) => ast matches Ok(found) && found@ == view,
                Err(e) => ast matches Err(found) && found@ == e,
            },
    {
        match DangStatement::from_tokens(lexer) {
            Ok(statement) => {
                let mut ast = DangAst::new();
                ast.ast.push(statement);
                assert(ast@ =~= seq![statement@]);
                Ok(ast)
            },
            Err(e) => Err(e),
        }
    }
}

} // verus!
