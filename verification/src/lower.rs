//! Lowering: from the syntax tree to the stack-machine program, depth first
//! and postfix, so that operands are pushed before what consumes them.

use vstd::prelude::*;
use crate::ast::{
    DangAst, DangBinaryOperationType, DangBuiltIn, DangExpression, DangFunctionCall,
    DangOperation, DangStatement, FunctionCallView, OperationView, StatementView,
    statements_view,
};
use crate::error::{LowerError, LowerErrorView};
use crate::ir::{Ir, IrInstruction, IrInstructionType};
use crate::text::str_equal;

verus! {

/// An instruction that carries no operand.
pub open spec fn plain(instruction_type: IrInstructionType) -> IrInstruction {
    IrInstruction { instruction_type, operand: 0 }
}

/// The instruction that pushes `value`.
pub open spec fn push_int(value: i64) -> IrInstruction {
    IrInstruction { instruction_type: IrInstructionType::PushInt, operand: value }
}

/// The opcode of an operator; exponentiation has none.
pub open spec fn opcode(kind: DangBinaryOperationType) -> Result<IrInstruction, LowerErrorView> {
    match kind {
        DangBinaryOperationType::Plus => Ok(plain(IrInstructionType::Plus)),
        DangBinaryOperationType::Minus => Ok(plain(IrInstructionType::Minus)),
        DangBinaryOperationType::Division => Ok(plain(IrInstructionType::Division)),
        DangBinaryOperationType::Multiplication => Ok(plain(IrInstructionType::Multiplication)),
        DangBinaryOperationType::Mod => Ok(plain(IrInstructionType::Mod)),
        DangBinaryOperationType::Power => Err(LowerErrorView::UnimplementedOperator(kind)),
    }
}

/// The table of built-ins by name.
pub open spec fn built_in(name: Seq<char>) -> DangBuiltIn {
    if name == seq!['p', 'r', 'i', 'n', 't'] {
        DangBuiltIn::Print
    } else {
        DangBuiltIn::Unknown
    }
}

/// What the table of built-ins holds of one of them.
#[derive(Debug, Clone, Copy, PartialEq, Eq, Structural)]
pub struct BuiltInEntry {
    /// How many arguments the built-in takes.
    pub arity: usize,
    /// Whether a call of the built-in leaves a value on the stack.
    pub returns_value: bool,
    /// The instruction that carries the built-in out.
    pub instruction: IrInstruction,
}

impl DangBuiltIn {
    /// The built-in's entry in the table; `Unknown` has none.
    pub open spec fn spec_entry(&self) -> Option<BuiltInEntry> {
        match self {
            DangBuiltIn::Print => Some(
                BuiltInEntry {
                    arity: 1,
                    returns_value: false,
                    instruction: plain(IrInstructionType::Print),
                },
            ),
            DangBuiltIn::Unknown => None,
        }
    }
}

/// The program of a statement whose value is used: a number is pushed, an
/// operation is its first operand, its second operand and then its opcode,
/// an expression is its first symbol, a call is `lower_call`. Names and
/// blocks have no program.
pub open spec fn lower_statement(s: StatementView) -> Result<Seq<IrInstruction>, LowerErrorView>
    decreases s, 0nat,
{
    match s {
        StatementView::Name(name) => Err(LowerErrorView::NameReference(name)),
        StatementView::Expression(symbols) => lower_expression(symbols),
        StatementView::FunctionCall(call) => lower_call(call, true),
        StatementView::Block(_) => Err(LowerErrorView::BlockNotAllowed),
        StatementView::Operation(operation) => lower_operation(operation),
        StatementView::Number(value) => Ok(seq![push_int(value)]),
    }
}

/// The program of an expression whose value is used: that of its first
/// symbol. The symbols after the first are not lowered and leave nothing in
/// the program, whatever they are. An expression without symbols has no
/// program.
pub open spec fn lower_expression(symbols: Seq<StatementView>) -> Result<
    Seq<IrInstruction>,
    LowerErrorView,
>
    decreases symbols, 0nat,
{
    if symbols.len() == 0 {
        Err(LowerErrorView::EmptyExpression)
    } else {
        lower_statement(symbols[0])
    }
}

/// The program of an operation: its first operand, its second operand,
/// then the operator's opcode.
pub open spec fn lower_operation(operation: OperationView) -> Result<
    Seq<IrInstruction>,
    LowerErrorView,
>
    decreases operation, 0nat,
{
    match lower_statement(*operation.first_operand) {
        Err(e) => Err(e),
        Ok(first) => match lower_statement(*operation.second_operand) {
            Err(e) => Err(e),
            Ok(second) => match opcode(operation.binary_operation_type) {
                Err(e) => Err(e),
                Ok(instruction) => Ok((first + second).push(instruction)),
            },
        },
    }
}

/// The programs of `items` one after the other; the first statement that
/// has none decides the error.
pub open spec fn lower_each(items: Seq<StatementView>) -> Result<Seq<IrInstruction>, LowerErrorView>
    decreases items, 0nat,
{
    if items.len() == 0 {
        Ok(Seq::empty())
    } else {
        match lower_each(items.drop_last()) {
            Err(e) => Err(e),
            Ok(before) => match lower_statement(items.last()) {
                Err(e) => Err(e),
                Ok(code) => Ok(before + code),
            },
        }
    }
}

/// What is checked of a call once its parameters have a program: it is
/// marked built-in, its name is in the table, its result is not used
/// unless the built-in returns one, and the number of parameters is the
/// built-in's arity. The checks are made in this order.
pub open spec fn check_call(call: FunctionCallView, used_return: bool) -> Result<
    IrInstruction,
    LowerErrorView,
> {
    if !call.is_built_in {
        Err(LowerErrorView::NotBuiltIn(call.name))
    } else {
        let target = built_in(call.name);
        match target.spec_entry() {
            None => Err(LowerErrorView::UnknownBuiltIn(call.name)),
            Some(entry) => if used_return && !entry.returns_value {
                Err(LowerErrorView::ResultUsed(target))
            } else if call.parameters.len() != entry.arity {
                Err(LowerErrorView::WrongArity(target, call.parameters.len() as usize))
            } else {
                Ok(entry.instruction)
            },
        }
    }
}

/// The program of a call: the programs of its parameters in order, then
/// the built-in's instruction. `used_return` says whether the call stands
/// where a value is needed.
pub open spec fn lower_call(call: FunctionCallView, used_return: bool) -> Result<
    Seq<IrInstruction>,
    LowerErrorView,
>
    decreases call, 0nat,
{
    match lower_each(call.parameters) {
        Err(e) => Err(e),
        Ok(parameters) => match check_call(call, used_return) {
            Err(e) => Err(e),
            Ok(instruction) => Ok(parameters.push(instruction)),
        },
    }
}

/// The program of a top-level statement. Only a call can stand there; it
/// is lowered with its result unused.
pub open spec fn lower_top_level(s: StatementView) -> Result<Seq<IrInstruction>, LowerErrorView> {
    match s {
        StatementView::FunctionCall(call) => lower_call(call, false),
        StatementView::Name(name) => Err(LowerErrorView::NameReference(name)),
        _ => Err(LowerErrorView::DroppedValue),
    }
}

/// The program of a whole tree: the programs of its top-level statements
/// in source order; the first statement that has none decides the error.
pub open spec fn lower_program(statements: Seq<StatementView>) -> Result<
    Seq<IrInstruction>,
    LowerErrorView,
>
    decreases statements.len(),
{
    if statements.len() == 0 {
        Ok(Seq::empty())
    } else {
        match lower_program(statements.drop_last()) {
            Err(e) => Err(e),
            Ok(before) => match lower_top_level(statements.last()) {
                Err(e) => Err(e),
                Ok(code) => Ok(before + code),
            },
        }
    }
}

/// How a lowering step leaves the program: extended by the step's code,
/// or as it was when the step fails.
pub open spec fn lowered(
    before: Seq<IrInstruction>,
    after: Seq<IrInstruction>,
    outcome: Result<(), LowerError>,
    expected: Result<Seq<IrInstruction>, LowerErrorView>,
) -> bool {
    match expected {
        Ok(code) => outcome is Ok && after == before + code,
        Err(e) => (outcome matches Err(found) && found@ == e) && after == before,
    }
}

impl DangBinaryOperationType {
    /// The instruction of the operator's opcode; exponentiation has none.
    pub fn as_ir_instruction(&self) -> (instruction: Result<IrInstruction, LowerError>)
        ensures
            match opcode(*self) {
                Ok(expected) => instruction == Ok::<IrInstruction, LowerError>(expected),
                Err(e) => instruction matches Err(found) && found@ == e,
            },
    {
        match self {
            DangBinaryOperationType::Plus => Ok(
                IrInstruction { instruction_type: IrInstructionType::Plus, operand: 0 },
            ),
            DangBinaryOperationType::Minus => Ok(
                IrInstruction { instruction_type: IrInstructionType::Minus, operand: 0 },
            ),
            DangBinaryOperationType::Division => Ok(
                IrInstruction { instruction_type: IrInstructionType::Division, operand: 0 },
            ),
            DangBinaryOperationType::Multiplication => Ok(
                IrInstruction { instruction_type: IrInstructionType::Multiplication, operand: 0 },
            ),
            DangBinaryOperationType::Mod => Ok(
                IrInstruction { instruction_type: IrInstructionType::Mod, operand: 0 },
            ),
            DangBinaryOperationType::Power => Err(
                LowerError::UnimplementedOperator(DangBinaryOperationType::Power),
            ),
        }
    }
}

impl DangBuiltIn {
    /// The built-in's entry in the table; `Unknown` has none.
    pub fn entry(&self) -> (entry: Option<BuiltInEntry>)
        ensures
            entry == self.spec_entry(),
    {
        match self {
            DangBuiltIn::Print => Some(
                BuiltInEntry {
                    arity: 1,
                    returns_value: false,
                    instruction: IrInstruction {
                        instruction_type: IrInstructionType::Print,
                        operand: 0,
                    },
                },
            ),
            DangBuiltIn::Unknown => None,
        }
    }

    /// Looks a name up in the table of built-ins.
    pub fn from_string(name: &str) -> (target: DangBuiltIn)
        ensures
            target == built_in(name@),
    {
        proof {
            reveal_strlit("print");
        }
        assert("print"@ =~= seq!['p', 'r', 'i', 'n', 't']);
        if str_equal(name, "print") {
            DangBuiltIn::Print
        } else {
            DangBuiltIn::Unknown
        }
    }
}

/// Lowers the statements of `items` in order onto `ir`.
fn lower_list(items: &Vec<DangStatement>, ir: &mut Ir) -> (outcome: Result<(), LowerError>)
    requires
        old(ir).wf(),
    ensures
        final(ir).wf(),
        lowered(old(ir)@, final(ir)@, outcome, lower_each(statements_view(items@))),
    decreases items,
{
    let ghost views = statements_view(items@);
    let ghost before = ir@;
    let start = ir.operations.len();
    let mut i: usize = 0;
    while i < items.len()
        invariant
            i <= items@.len(),
            views == statements_view(items@),
            start == before.len(),
            before == old(ir)@,
            ir.wf(),
            lower_each(views.subrange(0, i as int)) is Ok,
            ir@ == before + lower_each(views.subrange(0, i as int))->Ok_0,
        decreases items@.len() - i,
    {
        let ghost next = views.subrange(0, i + 1);
        assert(next.drop_last() == views.subrange(0, i as int));
        assert(next.last() == items@[i as int]@);
        match items[i].parse_into_operantions(ir) {
            Ok(()) => {
                proof {
                    let seen = lower_each(next.drop_last())->Ok_0;
                    let code = lower_statement(next.last())->Ok_0;
                    assert(ir@ =~= before + (seen + code));
                }
            },
            Err(e) => {
                ir.truncate(start);
                proof {
                    assert(lower_statement(next.last()) == Err::<
                        Seq<IrInstruction>,
                        LowerErrorView,
                    >(e@));
                    assert(lower_each(next) == Err::<Seq<IrInstruction>, LowerErrorView>(e@));
                    lemma_lower_each_fails(views, i + 1);
                    assert(ir@ =~= before);
                }
                return Err(e);
            },
        }
        i += 1;
    }
    assert(views.subrange(0, items@.len() as int) == views);
    Ok(())
}

/// Once a prefix of a list has no program, the list has none, for the
/// same reason.
pub proof fn lemma_lower_each_fails(items: Seq<StatementView>, n: int)
    requires
        0 <= n <= items.len(),
        lower_each(items.subrange(0, n)) is Err,
    ensures
        lower_each(items) == lower_each(items.subrange(0, n)),
    decreases items.len() - n,
{
    if n == items.len() {
        assert(items.subrange(0, n) == items);
    } else {
        assert(items.drop_last().subrange(0, n) == items.subrange(0, n));
        lemma_lower_each_fails(items.drop_last(), n);
    }
}

impl DangOperation {
    /// Lowers the operation where its value is used.
    pub fn parse_into_operantions(&self, ir: &mut Ir) -> (outcome: Result<(), LowerError>)
        requires
            old(ir).wf(),
        ensures
            final(ir).wf(),
            lowered(old(ir)@, final(ir)@, outcome, lower_operation(self@)),
        decreases self,
    {
        let start = ir.operations.len();
        match self.first_operand.parse_into_operantions(ir) {
            Ok(()) => {},
            Err(e) => {
                return Err(e);
            },
        }
        match self.second_operand.parse_into_operantions(ir) {
            Ok(()) => {},
            Err(e) => {
                ir.truncate(start);
                assert(ir@ == old(ir)@);
                return Err(e);
            },
        }
        match self.binary_operation_type.as_ir_instruction() {
            Ok(instruction) => {
                ir.push(instruction);
                proof {
                    let first = lower_statement(self.first_operand@)->Ok_0;
                    let second = lower_statement(self.second_operand@)->Ok_0;
                    assert(ir@ =~= old(ir)@ + (first + second).push(instruction));
                }
                Ok(())
            },
            Err(e) => {
                ir.truncate(start);
                assert(ir@ == old(ir)@);
                Err(e)
            },
        }
    }
}

impl DangExpression {
    /// Lowers the expression where its value is used: its first symbol
    /// only.
    pub fn parse_into_operantions(&self, ir: &mut Ir) -> (outcome: Result<(), LowerError>)
        requires
            old(ir).wf(),
        ensures
            final(ir).wf(),
            lowered(old(ir)@, final(ir)@, outcome, lower_expression(self@)),
        decreases self,
    {
        if self.symbols.len() == 0 {
            Err(LowerError::EmptyExpression)
        } else {
            self.symbols[0].parse_into_operantions(ir)
        }
    }
}

impl DangFunctionCall {
    /// Lowers the call. `used_return` says whether it stands where a value
    /// is needed.
    pub fn parse_into_operantions(&self, ir: &mut Ir, used_return: bool) -> (outcome: Result<
        (),
        LowerError,
    >)
        requires
            old(ir).wf(),
        ensures
            final(ir).wf(),
            lowered(old(ir)@, final(ir)@, outcome, lower_call(self@, used_return)),
        decreases self,
    {
        let start = ir.operations.len();
        match lower_list(&self.parameters, ir) {
            Ok(()) => {},
            Err(e) => {
                return Err(e);
            },
        }
        match self.check(used_return) {
            Ok(instruction) => {
                ir.push(instruction);
                proof {
                    let parameters = lower_each(self@.parameters)->Ok_0;
                    assert(ir@ =~= old(ir)@ + parameters.push(instruction));
                }
                Ok(())
            },
            Err(e) => {
                ir.truncate(start);
                assert(ir@ == old(ir)@);
                Err(e)
            },
        }
    }

    /// Resolves the call against the table of built-ins and checks how it
    /// is used.
    pub fn check(&self, used_return: bool) -> (instruction: Result<IrInstruction, LowerError>)
        ensures
            match check_call(self@, used_return) {
                Ok(expected) => instruction == Ok::<IrInstruction, LowerError>(expected),
                Err(e) => instruction matches Err(found) && found@ == e,
            },
    {
        if !self.is_built_in {
            return Err(LowerError::NotBuiltIn(self.name.clone()));
        }
        let target = DangBuiltIn::from_string(self.name.as_str());
        match target.entry() {
            None => Err(LowerError::UnknownBuiltIn(self.name.clone())),
            Some(entry) => {
                if used_return && !entry.returns_value {
                    Err(LowerError::ResultUsed(target))
                } else if self.parameters.len() != entry.arity {
                    Err(LowerError::WrongArity(target, self.parameters.len()))
                } else {
                    Ok(entry.instruction)
                }
            },
        }
    }
}

impl DangStatement {
    /// Lowers the statement where its value is used.
    pub fn parse_into_operantions(&self, ir: &mut Ir) -> (outcome: Result<(), LowerError>)
        requires
            old(ir).wf(),
        ensures
            final(ir).wf(),
            lowered(old(ir)@, final(ir)@, outcome, lower_statement(self@)),
        decreases self,
    {
        match self {
            DangStatement::Name(name) => {
                Err(LowerError::NameReference(name.clone()))
            },
            DangStatement::Expression(expression) => expression.parse_into_operantions(ir),
            DangStatement::FunctionCall(call) => call.parse_into_operantions(ir, true),
            DangStatement::Block(_) => {
                Err(LowerError::BlockNotAllowed)
            },
            DangStatement::Operation(operation) => operation.parse_into_operantions(ir),
            DangStatement::Number(value) => {
                ir.push(
                    IrInstruction { instruction_type: IrInstructionType::PushInt, operand: *value },
                );
                assert(ir@ =~= old(ir)@ + seq![push_int(*value)]);
                Ok(())
            },
        }
    }

    /// Lowers the statement as a top-level statement.
    pub fn lower_top_level(&self, ir: &mut Ir) -> (outcome: Result<(), LowerError>)
        requires
            old(ir).wf(),
        ensures
            final(ir).wf(),
            lowered(old(ir)@, final(ir)@, outcome, lower_top_level(self@)),
    {
        match self {
            DangStatement::FunctionCall(call) => call.parse_into_operantions(ir, false),
            DangStatement::Name(name) => {
                Err(LowerError::NameReference(name.clone()))
            },
            _ => {
                Err(LowerError::DroppedValue)
            },
        }
    }
}

/// Once a prefix of a program's statements has no program, the whole has
/// none, for the same reason.
pub proof fn lemma_lower_program_fails(statements: Seq<StatementView>, n: int)
    requires
        0 <= n <= statements.len(),
        lower_program(statements.subrange(0, n)) is Err,
    ensures
        lower_program(statements) == lower_program(statements.subrange(0, n)),
    decreases statements.len() - n,
{
    if n == statements.len() {
        assert(statements.subrange(0, n) == statements);
    } else {
        assert(statements.drop_last().subrange(0, n) == statements.subrange(0, n));
        lemma_lower_program_fails(statements.drop_last(), n);
    }
}

/// A program lowers only if each of its top-level statements is a call:
/// a value is never produced and dropped.
pub proof fn law_top_level_statements_are_calls(statements: Seq<StatementView>, i: int)
    requires
        lower_program(statements) is Ok,
        0 <= i < statements.len(),
    ensures
        statements[i] is FunctionCall,
    decreases statements.len(),
{
    if i < statements.len() - 1 {
        law_top_level_statements_are_calls(statements.drop_last(), i);
    }
}

/// A program that is one bare literal has no lowering: the literal's
/// value would be dropped.
pub proof fn law_bare_literal_is_dropped(value: i64)
    ensures
        lower_program(seq![StatementView::Number(value)]) == Err::<
            Seq<IrInstruction>,
            LowerErrorView,
        >(LowerErrorView::DroppedValue),
{
    let statements = seq![StatementView::Number(value)];
    assert(statements.drop_last() =~= Seq::<StatementView>::empty());
    assert(lower_program(statements.drop_last()) is Ok);
}

/// A call of `print!` whose parameters lower fails on their number
/// unless there is exactly one.
pub proof fn law_print_takes_one_argument(call: FunctionCallView)
    requires
        call.is_built_in,
        built_in(call.name) == DangBuiltIn::Print,
        lower_each(call.parameters) is Ok,
        call.parameters.len() != 1,
    ensures
        lower_call(call, false) == Err::<Seq<IrInstruction>, LowerErrorView>(
            LowerErrorView::WrongArity(DangBuiltIn::Print, call.parameters.len() as usize),
        ),
        lower_top_level(StatementView::FunctionCall(call)) == lower_call(call, false),
{
}

/// A built-in call whose parameters lower and whose name is not in the
/// table fails as an unknown built-in, wherever it stands.
pub proof fn law_unknown_built_in_is_rejected(call: FunctionCallView, used_return: bool)
    requires
        call.is_built_in,
        built_in(call.name) == DangBuiltIn::Unknown,
        lower_each(call.parameters) is Ok,
    ensures
        lower_call(call, used_return) == Err::<Seq<IrInstruction>, LowerErrorView>(
            LowerErrorView::UnknownBuiltIn(call.name),
        ),
{
}

impl DangAst {
    /// Lowers the whole tree to a program, or says why it has none.
    pub fn parse_into_operantions(&self) -> (program: Result<Ir, LowerError>)
        ensures
            match lower_program(self@) {
                Ok(code) => program matches Ok(ir) && ir@ == code && ir.wf(),
                Err(e) => program matches Err(found) && found@ == e,
            },
    {
        let ghost views = statements_view(self.ast@);
        let mut ir = Ir::new();
        let mut i: usize = 0;
        while i < self.ast.len()
            invariant
                i <= self.ast@.len(),
                views == statements_view(self.ast@),
                ir.wf(),
                lower_program(views.subrange(0, i as int)) is Ok,
                ir@ == lower_program(views.subrange(0, i as int))->Ok_0,
            decreases self.ast@.len() - i,
        {
            let ghost next = views.subrange(0, i + 1);
            assert(next.drop_last() == views.subrange(0, i as int));
            assert(next.last() == self.ast@[i as int]@);
            match self.ast[i].lower_top_level(&mut ir) {
                Ok(()) => {
                    assert(ir@ == lower_program(next)->Ok_0);
                },
                Err(e) => {
                    proof {
                        lemma_lower_program_fails(views, i + 1);
                    }
                    return Err(e);
                },
            }
            i += 1;
        }
        assert(views.subrange(0, self.ast@.len() as int) == views);
        Ok(ir)
    }
}

} // verus!
