//! What a stack-machine program means: the effect of each opcode on a stack
//! of 64-bit words and on the text printed so far, and the laws that tie
//! lowering to that meaning.

use vstd::prelude::*;
use vstd::arithmetic::div_mod::{
    lemma_add_mod_noop, lemma_fundamental_div_mod, lemma_mul_mod_noop, lemma_small_mod,
    lemma_sub_mod_noop,
};
use crate::ast::{DangBinaryOperationType, DangBuiltIn, FunctionCallView, StatementView};
use crate::error::LowerErrorView;
use crate::ir::{IrInstruction, IrInstructionType};
use crate::lower::{
    built_in, check_call, lower_call, lower_each, lower_program, lower_statement,
    lower_top_level, opcode, plain, push_int,
};
use crate::lexer::{LexerTokenKind, LexerTokenView};
use crate::parser::{law_call_of_operation_parses, literal_operation, operator, parse_program};
use crate::text::{decimal_text, digits};

verus! {

/// The number of values a 64-bit word can hold.
pub open spec fn word_count() -> int {
    0x1_0000_0000_0000_0000
}

/// The word that holds `v`: `v` reduced into `0 .. word_count()`, which is
/// the two's complement pattern of a negative value read as unsigned.
pub open spec fn word(v: int) -> int {
    v % word_count()
}

/// The state of the machine: the operand stack, top last, and the text
/// written to standard output.
pub struct Machine {
    pub stack: Seq<int>,
    pub output: Seq<char>,
}

/// The machine before a program runs.
pub open spec fn start() -> Machine {
    Machine { stack: Seq::empty(), output: Seq::empty() }
}

/// What a binary opcode leaves for the operands `a`, pushed first, and
/// `b`, pushed last. Sum, difference and product wrap; quotient and
/// remainder are unsigned, and division by zero stops the machine.
pub open spec fn combine(opcode: IrInstructionType, a: int, b: int) -> Option<int> {
    match opcode {
        IrInstructionType::Plus => Some(word(a + b)),
        IrInstructionType::Minus => Some(word(a - b)),
        IrInstructionType::Multiplication => Some(word(a * b)),
        IrInstructionType::Division => if b == 0 {
            None
        } else {
            Some(a / b)
        },
        IrInstructionType::Mod => if b == 0 {
            None
        } else {
            Some(a % b)
        },
        _ => None,
    }
}

/// The machine after one instruction, or `None` where it stops: on a
/// stack that holds too few operands, and on division by zero.
pub open spec fn step(m: Machine, instruction: IrInstruction) -> Option<Machine> {
    match instruction.instruction_type {
        IrInstructionType::PushInt => Some(
            Machine { stack: m.stack.push(word(instruction.operand as int)), output: m.output },
        ),
        IrInstructionType::Print => if m.stack.len() < 1 {
            None
        } else {
            Some(
                Machine {
                    stack: m.stack.drop_last(),
                    output: m.output + digits(m.stack.last() as nat) + seq!['\n'],
                },
            )
        },
        opcode => if m.stack.len() < 2 {
            None
        } else {
            match combine(opcode, m.stack[m.stack.len() - 2], m.stack.last()) {
                Some(result) => Some(
                    Machine {
                        stack: m.stack.drop_last().drop_last().push(result),
                        output: m.output,
                    },
                ),
                None => None,
            }
        },
    }
}

/// The machine after the instructions of `program`, run in order from `m`.
pub open spec fn run(program: Seq<IrInstruction>, m: Machine) -> Option<Machine>
    decreases program.len(),
{
    if program.len() == 0 {
        Some(m)
    } else {
        match run(program.drop_last(), m) {
            Some(before) => step(before, program.last()),
            None => None,
        }
    }
}

/// The word that a statement evaluates to where its value is used, or
/// `None` where evaluating it divides by zero or the statement has no
/// value.
pub open spec fn value(s: StatementView) -> Option<int>
    decreases s,
{
    match s {
        StatementView::Number(v) => Some(word(v as int)),
        StatementView::Expression(symbols) => if symbols.len() == 0 {
            None
        } else {
            value(symbols[0])
        },
        StatementView::Operation(operation) => match (
            value(*operation.first_operand),
            value(*operation.second_operand),
            opcode(operation.binary_operation_type),
        ) {
            (Some(a), Some(b), Ok(instruction)) => combine(instruction.instruction_type, a, b),
            _ => None,
        },
        _ => None,
    }
}

/// The machine `m` with one more value on its stack; stopped if there is
/// no value.
pub open spec fn with_value(m: Machine, v: Option<int>) -> Option<Machine> {
    match v {
        Some(v) => Some(Machine { stack: m.stack.push(v), output: m.output }),
        None => None,
    }
}

/// The machine `m` after it has printed a value; stopped if there is no
/// value.
pub open spec fn with_printed(m: Machine, v: Option<int>) -> Option<Machine> {
    match v {
        Some(v) => Some(
            Machine { stack: m.stack, output: m.output + digits(v as nat) + seq!['\n'] },
        ),
        None => None,
    }
}

/// Running two programs one after the other is running their
/// concatenation.
pub proof fn lemma_run_concat(a: Seq<IrInstruction>, b: Seq<IrInstruction>, m: Machine)
    ensures
        run(a + b, m) == match run(a, m) {
            Some(between) => run(b, between),
            None => None,
        },
    decreases b.len(),
{
    if b.len() == 0 {
        assert(a + b =~= a);
    } else {
        assert((a + b).drop_last() =~= a + b.drop_last());
        assert((a + b).last() == b.last());
        lemma_run_concat(a, b.drop_last(), m);
    }
}

/// Running a single instruction is taking one step.
pub proof fn lemma_run_one(instruction: IrInstruction, m: Machine)
    ensures
        run(seq![instruction], m) == step(m, instruction),
{
    let program = seq![instruction];
    assert(program.drop_last() =~= Seq::<IrInstruction>::empty());
    assert(run(program.drop_last(), m) == Some(m));
}

/// A call never lowers where its value is used: no built-in returns one.
pub proof fn lemma_call_has_no_value(call: FunctionCallView)
    ensures
        lower_call(call, true) is Err,
{
}

/// The program of a statement computes the statement: run from any
/// machine, it leaves the statement's value on top of the stack and
/// nothing else changed, and it stops exactly where evaluating the
/// statement divides by zero.
pub proof fn law_lowering_computes_value(s: StatementView, m: Machine)
    requires
        lower_statement(s) is Ok,
    ensures
        run(lower_statement(s)->Ok_0, m) == with_value(m, value(s)),
    decreases s,
{
    match s {
        StatementView::Number(v) => {
            lemma_run_one(push_int(v), m);
        },
        StatementView::Expression(symbols) => {
            law_lowering_computes_value(symbols[0], m);
        },
        StatementView::Operation(operation) => {
            let first = lower_statement(*operation.first_operand)->Ok_0;
            let second = lower_statement(*operation.second_operand)->Ok_0;
            let instruction = opcode(operation.binary_operation_type)->Ok_0;
            let code = lower_statement(s)->Ok_0;
            assert(code =~= first + (second + seq![instruction]));
            lemma_run_concat(first, second + seq![instruction], m);
            law_lowering_computes_value(*operation.first_operand, m);
            match run(first, m) {
                Some(after_first) => {
                    lemma_run_concat(second, seq![instruction], after_first);
                    law_lowering_computes_value(*operation.second_operand, after_first);
                    match run(second, after_first) {
                        Some(after_second) => {
                            lemma_run_one(instruction, after_second);
                            assert(after_second.stack.drop_last().drop_last() =~= m.stack);
                        },
                        None => {},
                    }
                },
                None => {},
            }
        },
        StatementView::FunctionCall(call) => {
            lemma_call_has_no_value(call);
        },
        _ => {},
    }
}

/// What a program prints, statement by statement: each top-level call
/// prints the value of its one parameter. `None` where evaluation divides
/// by zero.
pub open spec fn printed(statements: Seq<StatementView>) -> Option<Seq<char>>
    decreases statements.len(),
{
    if statements.len() == 0 {
        Some(Seq::empty())
    } else {
        match (printed(statements.drop_last()), statements.last()) {
            (Some(before), StatementView::FunctionCall(call)) => if call.parameters.len() == 1 {
                match value(call.parameters[0]) {
                    Some(v) => Some(before + digits(v as nat) + seq!['\n']),
                    None => None,
                }
            } else {
                None
            },
            _ => None,
        }
    }
}

/// The program of a top-level call prints the value of the call's
/// parameter and leaves the stack as it found it.
pub proof fn law_call_prints_value(call: FunctionCallView, m: Machine)
    requires
        lower_call(call, false) is Ok,
    ensures
        call.parameters.len() == 1,
        run(lower_call(call, false)->Ok_0, m) == with_printed(m, value(call.parameters[0])),
{
    let parameter = call.parameters[0];
    let instruction = check_call(call, false)->Ok_0;
    assert(call.parameters.drop_last() =~= Seq::<StatementView>::empty());
    assert(lower_each(call.parameters.drop_last()) == Ok::<Seq<IrInstruction>, LowerErrorView>(Seq::empty()));
    let code = lower_statement(parameter)->Ok_0;
    assert(lower_each(call.parameters)->Ok_0 =~= code);
    assert(lower_call(call, false)->Ok_0 =~= code + seq![instruction]);
    lemma_run_concat(code, seq![instruction], m);
    law_lowering_computes_value(parameter, m);
    match run(code, m) {
        Some(after) => {
            lemma_run_one(instruction, after);
            assert(after.stack.drop_last() =~= m.stack);
        },
        None => {},
    }
}

/// A program that lowers runs as the tree reads: started on an empty
/// stack it prints what its statements print, in order, and ends on an
/// empty stack; it stops exactly where a statement divides by zero. So no
/// program that lowers finds the stack short of operands.
pub proof fn law_program_prints(statements: Seq<StatementView>)
    requires
        lower_program(statements) is Ok,
    ensures
        run(lower_program(statements)->Ok_0, start()) == match printed(statements) {
            Some(output) => Some(Machine { stack: Seq::empty(), output }),
            None => None,
        },
    decreases statements.len(),
{
    if statements.len() > 0 {
        let before = lower_program(statements.drop_last())->Ok_0;
        let code = lower_top_level(statements.last())->Ok_0;
        law_program_prints(statements.drop_last());
        lemma_run_concat(before, code, start());
        match statements.last() {
            StatementView::FunctionCall(call) => {
                match run(before, start()) {
                    Some(between) => {
                        law_call_prints_value(call, between);
                    },
                    None => {
                        assert(call.parameters.len() == 1) by {
                            law_call_prints_value(call, start());
                        }
                    },
                }
            },
            _ => {},
        }
    }
}

/// The call `print!(parameter)`.
pub open spec fn print_of(parameter: StatementView) -> StatementView {
    StatementView::FunctionCall(
        FunctionCallView {
            name: seq!['p', 'r', 'i', 'n', 't'],
            parameters: seq![parameter],
            is_built_in: true,
        },
    )
}

/// The result of `a op b` over the integers; division and remainder
/// round toward zero on the operands they are stated for.
pub open spec fn exact(kind: DangBinaryOperationType, a: int, b: int) -> int {
    match kind {
        DangBinaryOperationType::Plus => a + b,
        DangBinaryOperationType::Minus => a - b,
        DangBinaryOperationType::Multiplication => a * b,
        DangBinaryOperationType::Division => a / b,
        DangBinaryOperationType::Mod => a % b,
        DangBinaryOperationType::Power => 0,
    }
}

/// The operands on which the machine computes `a op b` exactly: for sum,
/// difference and product the result is not negative and fits a word; for
/// quotient and remainder `a` is not negative and `b` is positive.
pub open spec fn computes_exactly(kind: DangBinaryOperationType, a: int, b: int) -> bool {
    match kind {
        DangBinaryOperationType::Plus | DangBinaryOperationType::Minus
        | DangBinaryOperationType::Multiplication => 0 <= exact(kind, a, b) < word_count(),
        DangBinaryOperationType::Division | DangBinaryOperationType::Mod => 0 <= a && 0 < b,
        DangBinaryOperationType::Power => false,
    }
}

/// `print!(a op b)` lowers to push `a`, push `b`, the operator's opcode
/// and print, for every operator that has an opcode.
pub proof fn lemma_print_of_operation_lowers(kind: DangBinaryOperationType, a: i64, b: i64)
    requires
        kind != DangBinaryOperationType::Power,
    ensures
        lower_program(seq![print_of(literal_operation(kind, a, b))]) == Ok::<
            Seq<IrInstruction>,
            LowerErrorView,
        >(seq![push_int(a), push_int(b), opcode(kind)->Ok_0, plain(IrInstructionType::Print)]),
{
    let operation = literal_operation(kind, a, b);
    let call = print_of(operation);
    let statements = seq![call];
    let instruction = opcode(kind)->Ok_0;
    let expected = seq![push_int(a), push_int(b), instruction, plain(IrInstructionType::Print)];
    assert(lower_statement(StatementView::Number(a)) == Ok::<Seq<IrInstruction>, LowerErrorView>(
        seq![push_int(a)],
    ));
    assert(lower_statement(StatementView::Number(b)) == Ok::<Seq<IrInstruction>, LowerErrorView>(
        seq![push_int(b)],
    ));
    let code = lower_statement(operation)->Ok_0;
    assert(code =~= seq![push_int(a), push_int(b), instruction]);
    let parameters = call->FunctionCall_0.parameters;
    assert(parameters.drop_last() =~= Seq::<StatementView>::empty());
    assert(lower_each(parameters.drop_last()) == Ok::<Seq<IrInstruction>, LowerErrorView>(
        Seq::empty(),
    ));
    assert(lower_each(parameters)->Ok_0 =~= code);
    assert(built_in(call->FunctionCall_0.name) == DangBuiltIn::Print);
    assert(lower_top_level(call)->Ok_0 =~= expected);
    assert(statements.drop_last() =~= Seq::<StatementView>::empty());
    assert(lower_program(statements.drop_last()) == Ok::<Seq<IrInstruction>, LowerErrorView>(
        Seq::empty(),
    ));
    assert(lower_program(statements)->Ok_0 =~= expected);
}

/// `print!(a op b)` lowers to push `a`, push `b`, the operator's opcode
/// and print, and that program, run on the machine, prints the decimal
/// text of `a op b` and a newline.
pub proof fn law_print_of_operation(kind: DangBinaryOperationType, a: i64, b: i64)
    requires
        computes_exactly(kind, a as int, b as int),
    ensures
        lower_program(seq![print_of(literal_operation(kind, a, b))]) == Ok::<
            Seq<IrInstruction>,
            LowerErrorView,
        >(seq![push_int(a), push_int(b), opcode(kind)->Ok_0, plain(IrInstructionType::Print)]),
        run(
            seq![push_int(a), push_int(b), opcode(kind)->Ok_0, plain(IrInstructionType::Print)],
            start(),
        ) == Some(
            Machine {
                stack: Seq::empty(),
                output: decimal_text(exact(kind, a as int, b as int)) + seq!['\n'],
            },
        ),
{
    let operation = literal_operation(kind, a, b);
    let call = print_of(operation);
    let statements = seq![call];
    lemma_print_of_operation_lowers(kind, a, b);
    law_program_prints(statements);
    assert(statements.drop_last() =~= Seq::<StatementView>::empty());
    assert(printed(statements.drop_last()) == Some(Seq::<char>::empty()));
    lemma_exact_word(kind, a as int, b as int);
    let result = exact(kind, a as int, b as int);
    assert(value(StatementView::Number(a)) == Some(word(a as int)));
    assert(value(StatementView::Number(b)) == Some(word(b as int)));
    assert(value(operation) == Some(result));
    assert(call->FunctionCall_0.parameters[0] == operation);
    assert(statements.last() == call);
    assert(printed(statements) == Some(
        Seq::<char>::empty() + digits(result as nat) + seq!['\n'],
    ));
    assert(Seq::<char>::empty() + digits(result as nat) + seq!['\n'] =~= decimal_text(result)
        + seq!['\n']);
}

/// From tokens to output: the tokens of `print!(a op b)` parse to a tree
/// whose program, run on the machine, prints the decimal text of
/// `a op b` and a newline.
pub proof fn law_print_statement_prints_result(tokens: Seq<LexerTokenView>)
    requires
        tokens.len() == 7,
        tokens[0].kind == LexerTokenKind::Word,
        tokens[0].string == seq!['p', 'r', 'i', 'n', 't'],
        tokens[1].kind == LexerTokenKind::ExclamationMark,
        tokens[2].kind == LexerTokenKind::OpenParen,
        tokens[3].kind == LexerTokenKind::Integer,
        operator(tokens[4].kind) is Some,
        tokens[5].kind == LexerTokenKind::Integer,
        tokens[6].kind == LexerTokenKind::CloseParen,
        computes_exactly(
            operator(tokens[4].kind)->Some_0,
            tokens[3].integer as int,
            tokens[5].integer as int,
        ),
    ensures
        parse_program(tokens) is Ok,
        lower_program(parse_program(tokens)->Ok_0) is Ok,
        run(lower_program(parse_program(tokens)->Ok_0)->Ok_0, start()) == Some(
            Machine {
                stack: Seq::empty(),
                output: decimal_text(
                    exact(
                        operator(tokens[4].kind)->Some_0,
                        tokens[3].integer as int,
                        tokens[5].integer as int,
                    ),
                ) + seq!['\n'],
            },
        ),
{
    law_call_of_operation_parses(tokens);
    law_print_of_operation(
        operator(tokens[4].kind)->Some_0,
        tokens[3].integer,
        tokens[5].integer,
    );
}

/// On the operands of `computes_exactly`, combining the operands' words
/// gives the exact result.
pub proof fn lemma_exact_word(kind: DangBinaryOperationType, a: int, b: int)
    requires
        computes_exactly(kind, a, b),
        i64::MIN <= a <= i64::MAX,
        i64::MIN <= b <= i64::MAX,
    ensures
        opcode(kind) is Ok,
        combine(opcode(kind)->Ok_0.instruction_type, word(a), word(b)) == Some(exact(kind, a, b)),
        0 <= exact(kind, a, b),
{
    let n = word_count();
    match kind {
        DangBinaryOperationType::Plus => {
            lemma_add_mod_noop(a, b, n);
            lemma_small_mod((a + b) as nat, n as nat);
        },
        DangBinaryOperationType::Minus => {
            lemma_sub_mod_noop(a, b, n);
            lemma_small_mod((a - b) as nat, n as nat);
        },
        DangBinaryOperationType::Multiplication => {
            lemma_mul_mod_noop(a, b, n);
            lemma_small_mod((a * b) as nat, n as nat);
        },
        DangBinaryOperationType::Division => {
            lemma_small_mod(a as nat, n as nat);
            lemma_small_mod(b as nat, n as nat);
            lemma_fundamental_div_mod(a, b);
            assert(0 <= a / b) by (nonlinear_arith)
                requires
                    0 <= a,
                    0 < b,
            ;
        },
        DangBinaryOperationType::Mod => {
            lemma_small_mod(a as nat, n as nat);
            lemma_small_mod(b as nat, n as nat);
        },
        DangBinaryOperationType::Power => {},
    }
}

} // verus!
