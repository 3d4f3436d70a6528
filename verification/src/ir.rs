//! The intermediate representation, a linear program for a stack machine,
//! and its rendering as NASM text for 64-bit Linux.

use vstd::prelude::*;
use vstd::string::StringExecFns;
use crate::text::{decimal_text, push_decimal};

verus! {

/// Opcode of one stack-machine instruction.
#[derive(Debug, Clone, Copy, PartialEq, Eq, Structural)]
pub enum IrInstructionType {
    PushInt,
    Plus,
    Minus,
    Division,
    Multiplication,
    Mod,
    Print,
}

/// One instruction; `operand` is meaningful for `PushInt` only.
#[derive(Debug, Clone, Copy, PartialEq, Eq, Structural)]
pub struct IrInstruction {
    pub instruction_type: IrInstructionType,
    pub operand: i64,
}

/// An append-only instruction sequence with a running count. The count is
/// kept as a `usize`, the type of the length it repeats, so that counting
/// one more instruction can never overflow.
#[derive(Debug, Clone, PartialEq, Eq)]
pub struct Ir {
    pub operations: Vec<IrInstruction>,
    pub at_in_instructions: usize,
}

/// The routine `print`: writes the unsigned 64-bit integer in `rdi` to
/// standard output in decimal, followed by a newline.
pub const PRINT_ROUTINE: &'static str = "BITS 64\n\
print:\n\
mov r9, -3689348814741910323\n\
sub rsp, 40\n\
mov BYTE [rsp+31], 10\n\
lea rcx, [rsp+30]\n\
.L2:\n\
mov rax, rdi\n\
lea r8, [rsp+32]\n\
mul r9\n\
mov rax, rdi\n\
sub r8, rcx\n\
shr rdx, 3\n\
lea rsi, [rdx+rdx*4]\n\
add rsi, rsi\n\
sub rax, rsi\n\
add eax, 48\n\
mov BYTE [rcx], al\n\
mov rax, rdi\n\
mov rdi, rdx\n\
mov rdx, rcx\n\
sub rcx, 1\n\
cmp rax, 9\n\
ja  .L2\n\
lea rax, [rsp+32]\n\
mov edi, 1\n\
sub rdx, rax\n\
xor eax, eax\n\
lea rsi, [rsp+32+rdx]\n\
mov rdx, r8\n\
mov rax, 1\n\
syscall\n\
add rsp, 40\n\
ret\n";

/// Opens the program's entry point.
pub const ENTRY_POINT: &'static str = "global _start\n_start:\n";

/// Leaves the process with status 0.
pub const EXIT_SEQUENCE: &'static str = "mov rax, 60\nmov rdi, 0\nsyscall\n";

impl IrInstructionType {
    /// The opcode's name, as the listing's comments show it.
    pub open spec fn name(self) -> Seq<char> {
        match self {
            IrInstructionType::PushInt => "PushInt"@,
            IrInstructionType::Plus => "Plus"@,
            IrInstructionType::Minus => "Minus"@,
            IrInstructionType::Division => "Division"@,
            IrInstructionType::Multiplication => "Multiplication"@,
            IrInstructionType::Mod => "Mod"@,
            IrInstructionType::Print => "Print"@,
        }
    }

    /// The opcode's name.
    pub fn as_str(&self) -> (name: &'static str)
        ensures
            name@ == self.name(),
    {
        match self {
            IrInstructionType::PushInt => "PushInt",
            IrInstructionType::Plus => "Plus",
            IrInstructionType::Minus => "Minus",
            IrInstructionType::Division => "Division",
            IrInstructionType::Multiplication => "Multiplication",
            IrInstructionType::Mod => "Mod",
            IrInstructionType::Print => "Print",
        }
    }
}

impl IrInstruction {
    /// The register transfers that carry the instruction out on the hardware
    /// stack. Of the two operands of a binary opcode the one pushed last is
    /// popped first. The product is taken with the two-operand `imul`, which
    /// leaves its low 64 bits in `rax`; quotient and remainder come from the
    /// unsigned `div`.
    pub open spec fn effect_text(self) -> Seq<char> {
        match self.instruction_type {
            IrInstructionType::PushInt => "mov rax, "@ + decimal_text(self.operand as int)
                + "\npush rax\n"@,
            IrInstructionType::Plus => "pop rax\npop rbx\nadd rax, rbx\npush rax\n"@,
            IrInstructionType::Minus => "pop rbx\npop rax\nsub rax, rbx\npush rax\n"@,
            IrInstructionType::Division => "xor rdx, rdx\npop rbx\npop rax\ndiv rbx\npush rax\n"@,
            IrInstructionType::Multiplication => "pop rax\npop rbx\nimul rax, rbx\npush rax\n"@,
            IrInstructionType::Mod => "xor rdx, rdx\npop rbx\npop rax\ndiv rbx\npush rdx\n"@,
            IrInstructionType::Print => "pop rdi\ncall print\n"@,
        }
    }

    /// The listing of one instruction: a comment naming the opcode, then its
    /// register transfers.
    pub open spec fn assembly_text(self) -> Seq<char> {
        ";; -- "@ + self.instruction_type.name() + " --\n"@ + self.effect_text()
    }

    /// Appends the instruction's listing to `out`.
    pub fn to_nasm_linux_x86_64_assembly(&self, out: &mut String)
        ensures
            final(out)@ == old(out)@ + self.assembly_text(),
    {
        out.append(";; -- ");
        out.append(self.instruction_type.as_str());
        out.append(" --\n");
        match self.instruction_type {
            IrInstructionType::PushInt => {
                out.append("mov rax, ");
                push_decimal(out, self.operand);
                out.append("\npush rax\n");
            },
            IrInstructionType::Plus => {
                out.append("pop rax\npop rbx\nadd rax, rbx\npush rax\n");
            },
            IrInstructionType::Minus => {
                out.append("pop rbx\npop rax\nsub rax, rbx\npush rax\n");
            },
            IrInstructionType::Division => {
                out.append("xor rdx, rdx\npop rbx\npop rax\ndiv rbx\npush rax\n");
            },
            IrInstructionType::Multiplication => {
                out.append("pop rax\npop rbx\nimul rax, rbx\npush rax\n");
            },
            IrInstructionType::Mod => {
                out.append("xor rdx, rdx\npop rbx\npop rax\ndiv rbx\npush rdx\n");
            },
            IrInstructionType::Print => {
                out.append("pop rdi\ncall print\n");
            },
        }
    }
}

/// The listings of the instructions of `program`, in order.
pub open spec fn body_text(program: Seq<IrInstruction>) -> Seq<char>
    decreases program.len(),
{
    if program.len() == 0 {
        Seq::empty()
    } else {
        body_text(program.drop_last()) + program.last().assembly_text()
    }
}

/// The whole listing: the print routine, the entry point with the
/// program's instructions in order, and the exit sequence.
pub open spec fn listing(program: Seq<IrInstruction>) -> Seq<char> {
    PRINT_ROUTINE@ + ENTRY_POINT@ + body_text(program) + EXIT_SEQUENCE@
}

impl View for Ir {
    type V = Seq<IrInstruction>;

    open spec fn view(&self) -> Seq<IrInstruction> {
        self.operations@
    }
}

impl Ir {
    /// The running count agrees with the number of instructions held.
    pub open spec fn wf(&self) -> bool {
        self.at_in_instructions == self.operations@.len()
    }

    /// An empty program.
    pub fn new() -> (ir: Ir)
        ensures
            ir@ == Seq::<IrInstruction>::empty(),
            ir.wf(),
    {
        Ir { operations: Vec::new(), at_in_instructions: 0 }
    }

    /// Appends one instruction and counts it. The count is set from the
    /// new length, which on a well-formed program is the old count plus
    /// one, and which makes the program well formed whatever the count was.
    pub fn push(&mut self, instruction: IrInstruction)
        ensures
            final(self)@ == old(self)@.push(instruction),
            final(self).wf(),
    {
        self.operations.push(instruction);
        self.at_in_instructions = self.operations.len();
    }

    /// Drops every instruction from index `len` on; a program that is no
    /// longer than `len` stays as it is. Lowering takes back with it what a
    /// failed step had appended.
    pub(crate) fn truncate(&mut self, len: usize)
        ensures
            final(self)@ == if len <= old(self)@.len() {
                old(self)@.subrange(0, len as int)
            } else {
                old(self)@
            },
            final(self).wf(),
    {
        self.operations.truncate(len);
        self.at_in_instructions = self.operations.len();
    }

    /// Renders the program as a NASM listing.
    pub fn to_nasm_linux_x86_64_assembly(&self) -> (out: String)
        ensures
            out@ == listing(self@),
    {
        let mut out = String::new();
        out.append(PRINT_ROUTINE);
        out.append(ENTRY_POINT);
        let n = self.operations.len();
        let mut i: usize = 0;
        while i < n
            invariant
                n == self@.len(),
                i <= n,
                out@ == PRINT_ROUTINE@ + ENTRY_POINT@ + body_text(self@.subrange(0, i as int)),
            decreases n - i,
        {
            assert(self@.subrange(0, i + 1).drop_last() == self@.subrange(0, i as int));
            self.operations[i].to_nasm_linux_x86_64_assembly(&mut out);
            i += 1;
        }
        assert(self@.subrange(0, n as int) == self@);
        out.append(EXIT_SEQUENCE);
        out
    }
}

} // verus!
