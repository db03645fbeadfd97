use mc_transpiler::codegen::transpile;
use mc_transpiler::isa::Condition;
use mc_transpiler::isa::Instruction;
use mc_transpiler::parse::parse_mc_file;

#[test]
fn parse_mc_lines() {
    let words = parse_mc_file("1000000000000001\n1010000000000001\n");
    assert_eq!(words, vec![0x8001, 0xa001]);
    // The final newline is optional.
    let words = parse_mc_file("0000000000000000\n1111111111111111");
    assert_eq!(words, vec![0x0000, 0xffff]);
    let words = parse_mc_file("");
    assert!(words.is_empty());
}

#[test]
fn alu_templates() {
    let labels: Vec<u16> = Vec::new();
    assert_eq!(
        Instruction::Add(1, 2, 0).to_nasm(&labels),
        "\tmov cl, [reg + 1]\n\tmov dl, [reg + 2]\n\tmov al, cl\n\tadd al, dl"
    );
    assert_eq!(
        Instruction::Sub(0, 3, 4).to_nasm(&labels),
        "\tmov cl, al\n\tmov dl, [reg + 3]\n\tmov [reg + 4], cl\n\tsub [reg + 4], dl"
    );
    assert_eq!(
        Instruction::Nor(0, 3, 4).to_nasm(&labels),
        "\tmov cl, al\n\tmov dl, [reg + 3]\n\tmov [reg + 4], cl\n\tor [reg + 4], dl\n\tnot byte [reg + 4]"
    );
    assert_eq!(
        Instruction::And(5, 6, 7).to_nasm(&labels),
        "\tmov cl, [reg + 5]\n\tmov dl, [reg + 6]\n\tmov [reg + 7], cl\n\tand [reg + 7], dl"
    );
    assert_eq!(
        Instruction::Xor(15, 14, 13).to_nasm(&labels),
        "\tmov cl, [reg + 15]\n\tmov dl, [reg + 14]\n\tmov [reg + 13], cl\n\txor [reg + 13], dl"
    );
    assert_eq!(
        Instruction::Rsh(1, 0).to_nasm(&labels),
        "\tmov cl, [reg + 1]\n\tshr cl, 1\n\tmov al, cl"
    );
}

#[test]
fn immediate_templates() {
    let labels: Vec<u16> = Vec::new();
    assert_eq!(Instruction::Ldi(0, 42).to_nasm(&labels), "\tmov al, 42");
    assert_eq!(Instruction::Ldi(9, 0).to_nasm(&labels), "\tmov byte [reg + 9], 0");
    assert_eq!(Instruction::Adi(5, 200).to_nasm(&labels), "\tadd byte [reg + 5], 200");
    assert_eq!(Instruction::Nop.to_nasm(&labels), "\tnop");
    assert_eq!(Instruction::Hlt.to_nasm(&labels), "\tret");
    assert_eq!(Instruction::Ret.to_nasm(&labels), "\tret");
}

#[test]
fn control_transfer_templates() {
    let labels: Vec<u16> = vec![1, 3, 10];
    assert_eq!(Instruction::Jmp(3).to_nasm(&labels), "\tjmp label_1");
    assert_eq!(Instruction::Cal(10).to_nasm(&labels), "\tcall label_2");
    assert_eq!(
        Instruction::Brh(Condition::Equal, 1).to_nasm(&labels),
        "\tje label_0"
    );
    assert_eq!(
        Instruction::Brh(Condition::NotEqual, 3).to_nasm(&labels),
        "\tjne label_1"
    );
    assert_eq!(
        Instruction::Brh(Condition::GreaterThanOrEqual, 10).to_nasm(&labels),
        "\tjae label_2"
    );
    assert_eq!(
        Instruction::Brh(Condition::LessThan, 1).to_nasm(&labels),
        "\tjb label_0"
    );
}

#[test]
fn memory_templates() {
    let labels: Vec<u16> = Vec::new();
    assert_eq!(
        Instruction::Lod(2, 0, -3).to_nasm(&labels),
        "\tmov cl, [reg + 2]\n\tadd cl, -3\n\tmovzx rcx, cl\n\tcall trap_read\n\tmov dl, [mem + rcx]\n\tmov al, dl"
    );
    assert_eq!(
        Instruction::Str(1, 2, 7).to_nasm(&labels),
        "\tmov cl, [reg + 1]\n\tadd cl, 7\n\tmovzx rcx, cl\n\tmov dl, [reg + 2]\n\tmov [mem + rcx], dl\n\tcall trap_write"
    );
}

#[test]
fn transpile_places_labels_before_their_instruction() {
    // Address 0: load 1 into register 0; address 1: jump to itself.
    let src = "1000000000000001\n1010000000000001\n";
    let out = transpile(src, false);
    let marker = "guest_start:\n";
    let at = out.find(marker).expect("header should end at the guest entry");
    let body = &out[at + marker.len()..];
    assert_eq!(body, "\tmov al, 1\nlabel_0:\n\tjmp label_0\n\n");
    assert!(out.starts_with("bits 64\n"));
}

#[test]
fn transpile_counting_mode_adds_only_the_counter() {
    let src = "1000000000000001\n1010000000000001\n";
    let out = transpile(src, true);
    let marker = "guest_start:\n";
    let at = out.find(marker).unwrap();
    let body = &out[at + marker.len()..];
    assert_eq!(
        body,
        "\tinc qword [rbx]\n\tmov al, 1\nlabel_0:\n\tinc qword [rbx]\n\tjmp label_0\n\n"
    );
}

#[test]
fn transpile_of_empty_program_is_the_bare_header() {
    let out = transpile("", false);
    assert!(out.starts_with("bits 64\n"));
    assert!(out.ends_with("guest_start:\n\n"));
}
