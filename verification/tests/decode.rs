use mc_transpiler::isa::Condition;
use mc_transpiler::isa::EncodedInstruction;
use mc_transpiler::isa::Instruction;
use mc_transpiler::isa::disassemble;

fn word(op: u16, a: u16, b: u16, c: u16) -> u16 {
    (op << 12) | (a << 8) | (b << 4) | c
}

#[test]
fn decode_is_total_over_all_words() {
    // Every 16-bit word decodes to exactly one variant; none fails.
    let mut counts = [0u32; 16];
    for w in 0..=u16::MAX {
        let ins = Instruction::from_instruction(EncodedInstruction(w));
        let variant = match ins {
            Instruction::Nop => 0,
            Instruction::Hlt => 1,
            Instruction::Add(..) => 2,
            Instruction::Sub(..) => 3,
            Instruction::Nor(..) => 4,
            Instruction::And(..) => 5,
            Instruction::Xor(..) => 6,
            Instruction::Rsh(..) => 7,
            Instruction::Ldi(..) => 8,
            Instruction::Adi(..) => 9,
            Instruction::Jmp(..) => 10,
            Instruction::Brh(..) => 11,
            Instruction::Cal(..) => 12,
            Instruction::Ret => 13,
            Instruction::Lod(..) => 14,
            Instruction::Str(..) => 15,
        };
        assert_eq!(variant, (w >> 12) as usize);
        counts[variant] += 1;
    }
    for count in counts {
        assert_eq!(count, 4096);
    }
}

#[test]
fn field_getters() {
    let e = EncodedInstruction(0x2abc);
    assert_eq!(e.opcode(), 2);
    assert_eq!(e.reg_a(), 0xa);
    assert_eq!(e.reg_b(), 0xb);
    assert_eq!(e.reg_c(), 0xc);
    assert_eq!(e.immediate(), 0xbc);
    assert_eq!(e.address(), 0x2bc);
    assert_eq!(e.read_bits(0..4), 2);
    assert_eq!(e.read_bits(4..8), 0xa);
    assert_eq!(e.read_bits(6..16), 0x2bc);
    // An empty range reads as zero.
    assert_eq!(e.read_bits(4..4), 0);
}

#[test]
fn decoded_operands() {
    let add = Instruction::from_instruction(EncodedInstruction(word(2, 10, 11, 12)));
    assert_eq!(add, Instruction::Add(10, 11, 12));
    let rsh = Instruction::from_instruction(EncodedInstruction(word(7, 3, 0, 9)));
    assert_eq!(rsh, Instruction::Rsh(3, 9));
    let ldi = Instruction::from_instruction(EncodedInstruction(word(8, 1, 0xf, 0xe)));
    assert_eq!(ldi, Instruction::Ldi(1, 0xfe));
    let jmp = Instruction::from_instruction(EncodedInstruction(word(10, 0x3, 0xa, 0xb)));
    assert_eq!(jmp, Instruction::Jmp(0x3ab));
    let brh = Instruction::from_instruction(EncodedInstruction(word(11, 0x1, 0x2, 0x3)));
    assert_eq!(brh, Instruction::Brh(Condition::Equal, 0x123));
    let brh_lt = Instruction::from_instruction(EncodedInstruction(word(11, 0xd, 0x2, 0x3)));
    assert_eq!(brh_lt, Instruction::Brh(Condition::LessThan, 0x123));
}

#[test]
fn offset_round_trip_all_patterns() {
    // Each 4-bit pattern stands for its two's-complement value.
    let expected: [i8; 16] = [0, 1, 2, 3, 4, 5, 6, 7, -8, -7, -6, -5, -4, -3, -2, -1];
    for pattern in 0u16..16 {
        let w = word(14, 1, 2, pattern);
        let e = EncodedInstruction(w);
        let got = e.offset();
        assert_eq!(got, expected[pattern as usize]);
        // Re-encoding the signed value recovers the pattern.
        assert_eq!((got as u8) & 0xf, pattern as u8);
        match Instruction::from_instruction(EncodedInstruction(w)) {
            Instruction::Lod(a, b, o) => {
                assert_eq!(a, 1);
                assert_eq!(b, 2);
                assert_eq!(o, expected[pattern as usize]);
            }
            other => panic!("expected a load, got {:?}", other),
        }
    }
}

#[test]
fn disassemble_preserves_length_and_order() {
    let words = vec![
        word(0, 0, 0, 0),
        word(8, 0, 2, 10),
        word(2, 1, 2, 3),
        word(10, 0, 0, 0),
        word(1, 0, 0, 0),
    ];
    let program = disassemble(&words);
    assert_eq!(program.len(), words.len());
    assert_eq!(program[0], Instruction::Nop);
    assert_eq!(program[1], Instruction::Ldi(0, 0x2a));
    assert_eq!(program[2], Instruction::Add(1, 2, 3));
    assert_eq!(program[3], Instruction::Jmp(0));
    assert_eq!(program[4], Instruction::Hlt);

    let empty = disassemble(&[]);
    assert_eq!(empty.len(), 0);
}
