use dang::ir::{Ir, IrInstruction, IrInstructionType, ENTRY_POINT, EXIT_SEQUENCE, PRINT_ROUTINE};

fn plain(instruction_type: IrInstructionType) -> IrInstruction {
    IrInstruction { instruction_type, operand: 0 }
}

fn push(value: i64) -> IrInstruction {
    IrInstruction { instruction_type: IrInstructionType::PushInt, operand: value }
}

fn text_of(instruction: IrInstruction) -> String {
    let mut out = String::new();
    instruction.to_nasm_linux_x86_64_assembly(&mut out);
    out
}

const ROUTINE: &str = "BITS 64
print:
mov r9, -3689348814741910323
sub rsp, 40
mov BYTE [rsp+31], 10
lea rcx, [rsp+30]
.L2:
mov rax, rdi
lea r8, [rsp+32]
mul r9
mov rax, rdi
sub r8, rcx
shr rdx, 3
lea rsi, [rdx+rdx*4]
add rsi, rsi
sub rax, rsi
add eax, 48
mov BYTE [rcx], al
mov rax, rdi
mov rdi, rdx
mov rdx, rcx
sub rcx, 1
cmp rax, 9
ja  .L2
lea rax, [rsp+32]
mov edi, 1
sub rdx, rax
xor eax, eax
lea rsi, [rsp+32+rdx]
mov rdx, r8
mov rax, 1
syscall
add rsp, 40
ret
";

#[test]
fn the_fixed_parts_read_as_written() {
    assert_eq!(PRINT_ROUTINE, ROUTINE);
    assert_eq!(ENTRY_POINT, "global _start\n_start:\n");
    assert_eq!(EXIT_SEQUENCE, "mov rax, 60\nmov rdi, 0\nsyscall\n");
}

#[test]
fn a_new_program_is_empty() {
    let ir = Ir::new();
    assert_eq!(ir.operations, vec![]);
    assert_eq!(ir.at_in_instructions, 0);
}

#[test]
fn push_appends_and_counts() {
    let mut ir = Ir::new();
    ir.push(push(3));
    ir.push(plain(IrInstructionType::Print));
    assert_eq!(ir.operations, vec![push(3), plain(IrInstructionType::Print)]);
    assert_eq!(ir.at_in_instructions, 2);
}

#[test]
fn opcodes_have_names() {
    assert_eq!(IrInstructionType::PushInt.as_str(), "PushInt");
    assert_eq!(IrInstructionType::Plus.as_str(), "Plus");
    assert_eq!(IrInstructionType::Minus.as_str(), "Minus");
    assert_eq!(IrInstructionType::Division.as_str(), "Division");
    assert_eq!(IrInstructionType::Multiplication.as_str(), "Multiplication");
    assert_eq!(IrInstructionType::Mod.as_str(), "Mod");
    assert_eq!(IrInstructionType::Print.as_str(), "Print");
}

#[test]
fn each_opcode_has_its_register_transfers() {
    assert_eq!(text_of(push(34)), ";; -- PushInt --\nmov rax, 34\npush rax\n");
    assert_eq!(
        text_of(plain(IrInstructionType::Plus)),
        ";; -- Plus --\npop rax\npop rbx\nadd rax, rbx\npush rax\n"
    );
    assert_eq!(
        text_of(plain(IrInstructionType::Minus)),
        ";; -- Minus --\npop rbx\npop rax\nsub rax, rbx\npush rax\n"
    );
    assert_eq!(
        text_of(plain(IrInstructionType::Division)),
        ";; -- Division --\nxor rdx, rdx\npop rbx\npop rax\ndiv rbx\npush rax\n"
    );
    assert_eq!(
        text_of(plain(IrInstructionType::Multiplication)),
        ";; -- Multiplication --\npop rax\npop rbx\nimul rax, rbx\npush rax\n"
    );
    assert_eq!(
        text_of(plain(IrInstructionType::Mod)),
        ";; -- Mod --\nxor rdx, rdx\npop rbx\npop rax\ndiv rbx\npush rdx\n"
    );
    assert_eq!(text_of(plain(IrInstructionType::Print)), ";; -- Print --\npop rdi\ncall print\n");
}

#[test]
fn an_operand_is_written_in_decimal() {
    assert_eq!(text_of(push(0)), ";; -- PushInt --\nmov rax, 0\npush rax\n");
    assert_eq!(text_of(push(-5)), ";; -- PushInt --\nmov rax, -5\npush rax\n");
    assert_eq!(
        text_of(push(i64::MAX)),
        ";; -- PushInt --\nmov rax, 9223372036854775807\npush rax\n"
    );
    assert_eq!(
        text_of(push(i64::MIN)),
        ";; -- PushInt --\nmov rax, -9223372036854775808\npush rax\n"
    );
    assert_eq!(text_of(push(1000)), ";; -- PushInt --\nmov rax, 1000\npush rax\n");
}

#[test]
fn the_operand_of_other_opcodes_is_not_written() {
    let odd = IrInstruction { instruction_type: IrInstructionType::Print, operand: 77 };
    assert_eq!(text_of(odd), ";; -- Print --\npop rdi\ncall print\n");
}

#[test]
fn a_listing_appends_to_what_is_there() {
    let mut out = String::from("x\n");
    plain(IrInstructionType::Print).to_nasm_linux_x86_64_assembly(&mut out);
    assert_eq!(out, "x\n;; -- Print --\npop rdi\ncall print\n");
}

#[test]
fn an_empty_program_is_routine_entry_and_exit() {
    let listing = Ir::new().to_nasm_linux_x86_64_assembly();
    assert_eq!(
        listing,
        format!("{}global _start\n_start:\nmov rax, 60\nmov rdi, 0\nsyscall\n", ROUTINE)
    );
}

#[test]
fn a_program_is_listed_instruction_by_instruction() {
    let mut ir = Ir::new();
    ir.push(push(34));
    ir.push(push(35));
    ir.push(plain(IrInstructionType::Plus));
    ir.push(plain(IrInstructionType::Print));
    let expected = format!(
        "{}{}{}{}{}{}{}",
        ROUTINE,
        "global _start\n_start:\n",
        ";; -- PushInt --\nmov rax, 34\npush rax\n",
        ";; -- PushInt --\nmov rax, 35\npush rax\n",
        ";; -- Plus --\npop rax\npop rbx\nadd rax, rbx\npush rax\n",
        ";; -- Print --\npop rdi\ncall print\n",
        "mov rax, 60\nmov rdi, 0\nsyscall\n"
    );
    assert_eq!(ir.to_nasm_linux_x86_64_assembly(), expected);
}
