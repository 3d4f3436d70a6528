//! The syntax tree, its mathematical view, and its rendering as text.

use vstd::prelude::*;
use vstd::string::StringExecFns;
use crate::text::{decimal_text, push_decimal};

verus! {

/// The operator of a binary operation.
#[derive(Debug, Clone, Copy, PartialEq, Eq, Structural)]
pub enum DangBinaryOperationType {
    Plus,
    Minus,
    Division,
    Multiplication,
    Mod,
    Power,
}

/// A binary operation: an operator and exactly two operands.
#[derive(Debug, PartialEq, Eq)]
pub struct DangOperation {
    pub binary_operation_type: DangBinaryOperationType,
    pub first_operand: Box<DangStatement>,
    pub second_operand: Box<DangStatement>,
}

/// A grouped sequence of statements.
#[derive(Debug, PartialEq, Eq)]
pub struct DangExpression {
    pub symbols: Vec<DangStatement>,
}

/// A braced sequence of statements.
#[derive(Debug, PartialEq, Eq)]
pub struct DangBlock {
    pub symbols: Vec<DangStatement>,
}

/// The operations that the compiler itself provides. A name that is not in
/// the table resolves to `Unknown`.
#[derive(Debug, Clone, Copy, PartialEq, Eq, Structural)]
pub enum DangBuiltIn {
    Print,
    Unknown,
}

/// A call: the callee's name, whether it was written with `!`, and the
/// parameters in order.
#[derive(Debug, PartialEq, Eq)]
pub struct DangFunctionCall {
    pub name: String,
    pub parameters: Vec<DangStatement>,
    pub is_built_in: bool,
}

/// A node of the syntax tree: exactly one of six forms.
#[derive(Debug, PartialEq, Eq)]
pub enum DangStatement {
    Name(String),
    Expression(DangExpression),
    FunctionCall(DangFunctionCall),
    Block(DangBlock),
    Operation(DangOperation),
    Number(i64),
}

/// A program: its top-level statements in source order.
#[derive(Debug, PartialEq, Eq)]
pub struct DangAst {
    pub ast: Vec<DangStatement>,
}

/// A statement as contracts speak of it: names are character sequences,
/// children are sequences of views.
pub enum StatementView {
    Name(Seq<char>),
    Expression(Seq<StatementView>),
    FunctionCall(FunctionCallView),
    Block(Seq<StatementView>),
    Operation(OperationView),
    Number(i64),
}

/// A call as contracts speak of it.
pub struct FunctionCallView {
    pub name: Seq<char>,
    pub parameters: Seq<StatementView>,
    pub is_built_in: bool,
}

/// A binary operation as contracts speak of it.
pub struct OperationView {
    pub binary_operation_type: DangBinaryOperationType,
    pub first_operand: Box<StatementView>,
    pub second_operand: Box<StatementView>,
}

/// The view of a statement, taken node by node.
pub open spec fn statement_view(s: DangStatement) -> StatementView
    decreases s,
{
    match s {
        DangStatement::Name(name) => StatementView::Name(name@),
        DangStatement::Expression(e) => StatementView::Expression(statements_view(e.symbols@)),
        DangStatement::FunctionCall(c) => StatementView::FunctionCall(
            FunctionCallView {
                name: c.name@,
                parameters: statements_view(c.parameters@),
                is_built_in: c.is_built_in,
            },
        ),
        DangStatement::Block(b) => StatementView::Block(statements_view(b.symbols@)),
        DangStatement::Operation(o) => StatementView::Operation(
            OperationView {
                binary_operation_type: o.binary_operation_type,
                first_operand: Box::new(statement_view(*o.first_operand)),
                second_operand: Box::new(statement_view(*o.second_operand)),
            },
        ),
        DangStatement::Number(value) => StatementView::Number(value),
    }
}

/// The views of a sequence of statements, in the same order.
pub open spec fn statements_view(v: Seq<DangStatement>) -> Seq<StatementView>
    decreases v,
{
    Seq::new(
        v.len(),
        |i: int|
            if 0 <= i < v.len() {
                statement_view(v[i])
            } else {
                arbitrary()
            },
    )
}

impl View for DangStatement {
    type V = StatementView;

    open spec fn view(&self) -> StatementView {
        statement_view(*self)
    }
}

impl View for DangExpression {
    type V = Seq<StatementView>;

    open spec fn view(&self) -> Seq<StatementView> {
        statements_view(self.symbols@)
    }
}

impl View for DangBlock {
    type V = Seq<StatementView>;

    open spec fn view(&self) -> Seq<StatementView> {
        statements_view(self.symbols@)
    }
}

impl View for DangFunctionCall {
    type V = FunctionCallView;

    open spec fn view(&self) -> FunctionCallView {
        FunctionCallView {
            name: self.name@,
            parameters: statements_view(self.parameters@),
            is_built_in: self.is_built_in,
        }
    }
}

impl View for DangOperation {
    type V = OperationView;

    open spec fn view(&self) -> OperationView {
        OperationView {
            binary_operation_type: self.binary_operation_type,
            first_operand: Box::new(statement_view(*self.first_operand)),
            second_operand: Box::new(statement_view(*self.second_operand)),
        }
    }
}

impl View for DangAst {
    type V = Seq<StatementView>;

    open spec fn view(&self) -> Seq<StatementView> {
        statements_view(self.ast@)
    }
}

impl DangBinaryOperationType {
    /// The operator as it is written.
    pub open spec fn symbol(self) -> char {
        match self {
            DangBinaryOperationType::Plus => '+',
            DangBinaryOperationType::Minus => '-',
            DangBinaryOperationType::Division => '/',
            DangBinaryOperationType::Multiplication => '*',
            DangBinaryOperationType::Mod => '%',
            DangBinaryOperationType::Power => '^',
        }
    }

    fn symbol_char(&self) -> (c: char)
        ensures
            c == self.symbol(),
    {
        match self {
            DangBinaryOperationType::Plus => '+',
            DangBinaryOperationType::Minus => '-',
            DangBinaryOperationType::Division => '/',
            DangBinaryOperationType::Multiplication => '*',
            DangBinaryOperationType::Mod => '%',
            DangBinaryOperationType::Power => '^',
        }
    }

    /// The operator as a one-character string.
    pub fn as_string(&self) -> (text: String)
        ensures
            text@ == seq![self.symbol()],
    {
        let mut text = String::new();
        text.push(self.symbol_char());
        text
    }
}

/// A statement in infix notation: a name or number as it is, an operation
/// as `(first op second)`, a call as `name(parameters)`, an expression in
/// round and a block in curly brackets.
pub open spec fn statement_text(s: StatementView) -> Seq<char>
    decreases s, 0nat,
{
    match s {
        StatementView::Name(name) => name,
        StatementView::Expression(symbols) => expression_text(symbols),
        StatementView::FunctionCall(call) => function_call_text(call),
        StatementView::Block(symbols) => block_text(symbols),
        StatementView::Operation(operation) => operation_text(operation),
        StatementView::Number(value) => decimal_text(value as int),
    }
}

/// The statements of `items` in order, with `", "` between neighbours.
pub open spec fn list_text(items: Seq<StatementView>) -> Seq<char>
    decreases items, 0nat,
{
    if items.len() == 0 {
        Seq::empty()
    } else if items.len() == 1 {
        statement_text(items[0])
    } else {
        list_text(items.drop_last()) + seq![',', ' '] + statement_text(items.last())
    }
}

/// An operation: `(first op second)`.
pub open spec fn operation_text(operation: OperationView) -> Seq<char>
    decreases operation, 0nat,
{
    seq!['('] + statement_text(*operation.first_operand) + seq![
        ' ',
        operation.binary_operation_type.symbol(),
        ' ',
    ] + statement_text(*operation.second_operand) + seq![')']
}

/// An expression: its symbols as a list in round brackets.
pub open spec fn expression_text(symbols: Seq<StatementView>) -> Seq<char>
    decreases symbols, 1nat,
{
    seq!['('] + list_text(symbols) + seq![')']
}

/// A block: its symbols as a list in curly brackets.
pub open spec fn block_text(symbols: Seq<StatementView>) -> Seq<char>
    decreases symbols, 1nat,
{
    seq!['{'] + list_text(symbols) + seq!['}']
}

/// A call: its name, then its parameters as a list in round brackets.
pub open spec fn function_call_text(call: FunctionCallView) -> Seq<char>
    decreases call, 0nat,
{
    call.name + seq!['('] + list_text(call.parameters) + seq![')']
}

/// A program: its statements as a list in square brackets.
pub open spec fn ast_text(statements: Seq<StatementView>) -> Seq<char> {
    seq!['['] + list_text(statements) + seq![']']
}

/// Appends the statements of `items` to `out`, separated by `", "`.
fn render_list(items: &Vec<DangStatement>, out: &mut String)
    ensures
        final(out)@ == old(out)@ + list_text(statements_view(items@)),
    decreases items,
{
    let ghost views = statements_view(items@);
    let ghost before = out@;
    let mut i: usize = 0;
    while i < items.len()
        invariant
            i <= items@.len(),
            views == statements_view(items@),
            out@ == before + list_text(views.subrange(0, i as int)),
        decreases items@.len() - i,
    {
        let ghost seen = views.subrange(0, i as int);
        let ghost next = views.subrange(0, i + 1);
        assert(next.drop_last() == seen);
        assert(next.last() == items@[i as int]@);
        if i > 0 {
            out.push(',');
            out.push(' ');
        }
        items[i].render(out);
        i += 1;
    }
    assert(views.subrange(0, items@.len() as int) == views);
}

impl DangOperation {
    /// The operation `first_operand op second_operand`.
    pub fn new(
        binary_operation_type: DangBinaryOperationType,
        first_operand: DangStatement,
        second_operand: DangStatement,
    ) -> (operation: DangOperation)
        ensures
            operation.binary_operation_type == binary_operation_type,
            *operation.first_operand == first_operand,
            *operation.second_operand == second_operand,
    {
        DangOperation {
            binary_operation_type,
            first_operand: Box::new(first_operand),
            second_operand: Box::new(second_operand),
        }
    }

    fn render(&self, out: &mut String)
        ensures
            final(out)@ == old(out)@ + operation_text(self@),
        decreases self,
    {
        out.push('(');
        self.first_operand.render(out);
        out.push(' ');
        out.push(self.binary_operation_type.symbol_char());
        out.push(' ');
        self.second_operand.render(out);
        out.push(')');
    }

    /// The operation as text, for diagnostics.
    pub fn to_string(&self) -> (text: String)
        ensures
            text@ == operation_text(self@),
    {
        let mut text = String::new();
        self.render(&mut text);
        text
    }
}

impl DangExpression {
    /// An expression without symbols.
    pub fn new() -> (expression: DangExpression)
        ensures
            expression.symbols@.len() == 0,
            expression@ == Seq::<StatementView>::empty(),
    {
        DangExpression { symbols: Vec::new() }
    }

    /// Whether the expression has no symbols.
    pub fn is_empty(&self) -> (empty: bool)
        ensures
            empty == (self@.len() == 0),
    {
        self.symbols.len() == 0
    }

    fn render(&self, out: &mut String)
        ensures
            final(out)@ == old(out)@ + expression_text(self@),
        decreases self,
    {
        out.push('(');
        render_list(&self.symbols, out);
        out.push(')');
    }

    /// The expression as text, for diagnostics.
    pub fn to_string(&self) -> (text: String)
        ensures
            text@ == expression_text(self@),
    {
        let mut text = String::new();
        self.render(&mut text);
        text
    }
}

impl DangBlock {
    /// A block without symbols.
    pub fn new() -> (block: DangBlock)
        ensures
            block.symbols@.len() == 0,
            block@ == Seq::<StatementView>::empty(),
    {
        DangBlock { symbols: Vec::new() }
    }

    /// Whether the block has no symbols.
    pub fn is_empty(&self) -> (empty: bool)
        ensures
            empty == (self@.len() == 0),
    {
        self.symbols.len() == 0
    }

    fn render(&self, out: &mut String)
        ensures
            final(out)@ == old(out)@ + block_text(self@),
        decreases self,
    {
        out.push('{');
        render_list(&self.symbols, out);
        out.push('}');
    }

    /// The block as text, for diagnostics.
    pub fn to_string(&self) -> (text: String)
        ensures
            text@ == block_text(self@),
    {
        let mut text = String::new();
        self.render(&mut text);
        text
    }
}

impl DangFunctionCall {
    /// A call without a name or parameters, not marked built-in.
    pub fn new() -> (call: DangFunctionCall)
        ensures
            call.parameters@.len() == 0,
            call@ == (FunctionCallView {
                name: Seq::empty(),
                parameters: Seq::empty(),
                is_built_in: false,
            }),
    {
        let call = DangFunctionCall {
            name: String::new(),
            parameters: Vec::new(),
            is_built_in: false,
        };
        assert(call@.parameters =~= Seq::empty());
        call
    }

    /// Whether the call has neither a name nor parameters.
    pub fn is_empty(&self) -> (empty: bool)
        ensures
            empty == (self@.name.len() == 0 && self@.parameters.len() == 0),
    {
        self.name.as_str().is_empty() && self.parameters.len() == 0
    }

    fn render(&self, out: &mut String)
        ensures
            final(out)@ == old(out)@ + function_call_text(self@),
        decreases self,
    {
        out.append(self.name.as_str());
        out.push('(');
        render_list(&self.parameters, out);
        out.push(')');
    }

    /// The call as text, for diagnostics.
    pub fn to_string(&self) -> (text: String)
        ensures
            text@ == function_call_text(self@),
    {
        let mut text = String::new();
        self.render(&mut text);
        text
    }
}

impl DangStatement {
    fn render(&self, out: &mut String)
        ensures
            final(out)@ == old(out)@ + statement_text(self@),
        decreases self,
    {
        match self {
            DangStatement::Name(name) => out.append(name.as_str()),
            DangStatement::Expression(expression) => expression.render(out),
            DangStatement::FunctionCall(call) => call.render(out),
            DangStatement::Block(block) => block.render(out),
            DangStatement::Operation(operation) => operation.render(out),
            DangStatement::Number(value) => push_decimal(out, *value),
        }
    }

    /// The statement as text, for diagnostics.
    pub fn to_string(&self) -> (text: String)
        ensures
            text@ == statement_text(self@),
    {
        let mut text = String::new();
        self.render(&mut text);
        text
    }
}

impl DangAst {
    /// A program without statements.
    pub fn new() -> (ast: DangAst)
        ensures
            ast.ast@.len() == 0,
            ast@ == Seq::<StatementView>::empty(),
    {
        DangAst { ast: Vec::new() }
    }

    /// The program as text, for diagnostics.
    pub fn to_string(&self) -> (text: String)
        ensures
            text@ == ast_text(self@),
    {
        let mut text = String::new();
        text.push('[');
        render_list(&self.ast, &mut text);
        text.push(']');
        text
    }
}

} // verus!
