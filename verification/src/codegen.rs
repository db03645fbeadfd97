//! Lowering decoded instructions to native-assembly text.
//!
//! Every guest instruction maps to one fixed template. Register 0 is
//! held in the dedicated host register `al`; registers 1 to 15 are
//! bytes of the register file, addressed through `reg`. Loads and
//! stores go through the read and write trap thunks, so every guest
//! memory access reaches the peripheral protocol. Control transfers
//! name the symbolic label of their target address.

use vstd::prelude::*;
use vstd::string::StringExecFns;
use crate::isa::Instruction;
use crate::isa::Condition;
use crate::isa::spec_decode;
use crate::labels::find_labels;
use crate::labels::is_label_table;
use crate::labels::is_target;
use crate::labels::lemma_label_determinism;
use crate::labels::sorted_strict;
use crate::labels::target_of;
use crate::parse::mc_words;
use crate::parse::parse_mc_file;
use crate::parse::wf_mc;
use crate::text::dec_digits;
use crate::text::dec_signed;
use crate::text::label_chars;
use crate::text::operand_chars;
use crate::text::sized_operand_chars;
use crate::text::push_dec;
use crate::text::push_dec_i8;
use crate::text::push_label;
use crate::text::push_operand;
use crate::text::push_sized_operand;
use crate::isa::disassemble;

verus! {

broadcast use vstd::string::group_string_axioms;

/// The text of a three-operand arithmetic/logic template: both sources
/// into the scratch registers `cl` and `dl`, the first into the
/// destination, then the operation.
pub open spec fn alu_chars(op: Seq<char>, a: u8, b: u8, c: u8) -> Seq<char> {
    "\tmov cl, "@ + operand_chars(a) + "\n\tmov dl, "@ + operand_chars(b) + "\n\tmov "@
        + operand_chars(c) + ", cl\n\t"@ + op + " "@ + operand_chars(c) + ", dl"@
}

/// The native conditional-jump mnemonic for each branch condition.
pub open spec fn cond_jump_chars(c: Condition) -> Seq<char> {
    match c {
        Condition::Equal => "je"@,
        Condition::NotEqual => "jne"@,
        Condition::GreaterThanOrEqual => "jae"@,
        Condition::LessThan => "jb"@,
    }
}

/// The template text of one instruction, its operands substituted in.
pub open spec fn instr_chars(ins: Instruction, labels: Seq<u16>) -> Seq<char> {
    match ins {
        Instruction::Nop => "\tnop"@,
        Instruction::Hlt => "\tret"@,
        Instruction::Add(a, b, c) => alu_chars("add"@, a, b, c),
        Instruction::Sub(a, b, c) => alu_chars("sub"@, a, b, c),
        Instruction::Nor(a, b, c) => alu_chars("or"@, a, b, c) + "\n\tnot "@ + sized_operand_chars(c),
        Instruction::And(a, b, c) => alu_chars("and"@, a, b, c),
        Instruction::Xor(a, b, c) => alu_chars("xor"@, a, b, c),
        Instruction::Rsh(a, c) => "\tmov cl, "@ + operand_chars(a) + "\n\tshr cl, 1\n\tmov "@
            + operand_chars(c) + ", cl"@,
        Instruction::Ldi(a, i) => "\tmov "@ + sized_operand_chars(a) + ", "@ + dec_digits(i as nat),
        Instruction::Adi(a, i) => "\tadd "@ + sized_operand_chars(a) + ", "@ + dec_digits(i as nat),
        Instruction::Jmp(ad) => "\tjmp "@ + label_chars(labels.index_of(ad) as nat),
        Instruction::Brh(c, ad) => "\t"@ + cond_jump_chars(c) + " "@ + label_chars(
            labels.index_of(ad) as nat,
        ),
        Instruction::Cal(ad) => "\tcall "@ + label_chars(labels.index_of(ad) as nat),
        Instruction::Ret => "\tret"@,
        Instruction::Lod(a, b, o) => "\tmov cl, "@ + operand_chars(a) + "\n\tadd cl, "@
            + dec_signed(o as int) + "\n\tmovzx rcx, cl\n\tcall trap_read\n\tmov dl, [mem + rcx]\n\tmov "@
            + operand_chars(b) + ", dl"@,
        Instruction::Str(a, b, o) => "\tmov cl, "@ + operand_chars(a) + "\n\tadd cl, "@
            + dec_signed(o as int) + "\n\tmovzx rcx, cl\n\tmov dl, "@ + operand_chars(b)
            + "\n\tmov [mem + rcx], dl\n\tcall trap_write"@,
    }
}

/// Finds the position of `a` in an ascending label table.
fn label_position(labels: &Vec<u16>, a: u16) -> (i: usize)
    requires
        sorted_strict(labels@),
        labels@.contains(a),
    ensures
        i < labels@.len(),
        labels@[i as int] == a,
        i as int == labels@.index_of(a),
{
    let mut i: usize = 0;
    while i < labels.len()
        invariant
            i <= labels@.len(),
            labels@.contains(a),
            sorted_strict(labels@),
            forall|k: int| 0 <= k < i ==> labels@[k] != a,
        decreases labels@.len() - i,
    {
        if labels[i] == a {
            proof {
                let j = labels@.index_of(a);
                assert(labels@[j] == a);
                if j < i as int {
                    assert(false);
                } else if j > i as int {
                    assert(labels@[i as int] < labels@[j]);
                    assert(false);
                }
            }
            return i;
        }
        i += 1;
    }
    proof {
        let j = choose|j: int| 0 <= j < labels@.len() && labels@[j] == a;
        assert(false);
    }
    vstd::pervasive::unreached()
}

/// Appends a three-operand arithmetic/logic template.
fn push_alu(out: &mut String, op: &str, a: u8, b: u8, c: u8)
    ensures
        final(out)@ == old(out)@ + alu_chars(op@, a, b, c),
{
    out.append("\tmov cl, ");
    push_operand(out, a);
    out.append("\n\tmov dl, ");
    push_operand(out, b);
    out.append("\n\tmov ");
    push_operand(out, c);
    out.append(", cl\n\t");
    out.append(op);
    out.append(" ");
    push_operand(out, c);
    out.append(", dl");
    proof {
        assert(out@ =~= old(out)@ + alu_chars(op@, a, b, c));
    }
}

impl Instruction {
    /// Lowers one instruction to its fixed native-code template. A
    /// control transfer requires its target to stand in the label
    /// table; label discovery guarantees that for whole programs.
    pub fn to_nasm(&self, labels: &Vec<u16>) -> (r: String)
        requires
            sorted_strict(labels@),
            target_of(*self) matches Some(a) ==> labels@.contains(a),
        ensures
            r@ == instr_chars(*self, labels@),
    {
        let mut out = String::new();
        match *self {
            Instruction::Nop => {
                out.append("\tnop");
            },
            Instruction::Hlt => {
                out.append("\tret");
            },
            Instruction::Add(a, b, c) => {
                push_alu(&mut out, "add", a, b, c);
            },
            Instruction::Sub(a, b, c) => {
                push_alu(&mut out, "sub", a, b, c);
            },
            Instruction::Nor(a, b, c) => {
                push_alu(&mut out, "or", a, b, c);
                out.append("\n\tnot ");
                push_sized_operand(&mut out, c);
                proof {
                    assert(out@ =~= instr_chars(*self, labels@));
                }
            },
            Instruction::And(a, b, c) => {
                push_alu(&mut out, "and", a, b, c);
            },
            Instruction::Xor(a, b, c) => {
                push_alu(&mut out, "xor", a, b, c);
            },
            Instruction::Rsh(a, c) => {
                out.append("\tmov cl, ");
                push_operand(&mut out, a);
                out.append("\n\tshr cl, 1\n\tmov ");
                push_operand(&mut out, c);
                out.append(", cl");
                proof {
                    assert(out@ =~= instr_chars(*self, labels@));
                }
            },
            Instruction::Ldi(a, i) => {
                out.append("\tmov ");
                push_sized_operand(&mut out, a);
                out.append(", ");
                push_dec(&mut out, i as u64);
                proof {
                    assert(out@ =~= instr_chars(*self, labels@));
                }
            },
            Instruction::Adi(a, i) => {
                out.append("\tadd ");
                push_sized_operand(&mut out, a);
                out.append(", ");
                push_dec(&mut out, i as u64);
                proof {
                    assert(out@ =~= instr_chars(*self, labels@));
                }
            },
            Instruction::Jmp(ad) => {
                out.append("\tjmp ");
                let idx = label_position(labels, ad);
                push_label(&mut out, idx);
                proof {
                    assert(out@ =~= instr_chars(*self, labels@));
                }
            },
            Instruction::Brh(c, ad) => {
                let mnemonic: &str = match c {
                    Condition::Equal => "je",
                    Condition::NotEqual => "jne",
                    Condition::GreaterThanOrEqual => "jae",
                    Condition::LessThan => "jb",
                };
                proof {
                    assert(mnemonic@ == cond_jump_chars(c));
                }
                out.append("\t");
                out.append(mnemonic);
                out.append(" ");
                let idx = label_position(labels, ad);
                push_label(&mut out, idx);
                proof {
                    assert(out@ =~= instr_chars(*self, labels@));
                }
            },
            Instruction::Cal(ad) => {
                out.append("\tcall ");
                let idx = label_position(labels, ad);
                push_label(&mut out, idx);
                proof {
                    assert(out@ =~= instr_chars(*self, labels@));
                }
            },
            Instruction::Ret => {
                out.append("\tret");
            },
            Instruction::Lod(a, b, o) => {
                out.append("\tmov cl, ");
                push_operand(&mut out, a);
                out.append("\n\tadd cl, ");
                push_dec_i8(&mut out, o);
                out.append("\n\tmovzx rcx, cl\n\tcall trap_read\n\tmov dl, [mem + rcx]\n\tmov ");
                push_operand(&mut out, b);
                out.append(", dl");
                proof {
                    assert(out@ =~= instr_chars(*self, labels@));
                }
            },
            Instruction::Str(a, b, o) => {
                out.append("\tmov cl, ");
                push_operand(&mut out, a);
                out.append("\n\tadd cl, ");
                push_dec_i8(&mut out, o);
                out.append("\n\tmovzx rcx, cl\n\tmov dl, ");
                push_operand(&mut out, b);
                out.append("\n\tmov [mem + rcx], dl\n\tcall trap_write");
                proof {
                    assert(out@ =~= instr_chars(*self, labels@));
                }
            },
        }
        proof {
            assert(out@ =~= instr_chars(*self, labels@));
        }
        out
    }
}

/// The fixed prologue of every generated module: the entry points, the
/// calling convention (guest memory, register file, read trap, write
/// trap, instruction counter), and the two trap thunks that carry a
/// guest address out to the host callbacks.
pub open spec fn asm_header_chars() -> Seq<char> {
    "bits 64\n\nsection .text\n\nglobal _DllMain\nglobal _main\n\n%define mem r12\n%define reg r13\n\n_DllMain:\n\tmov rax, 1\n\tret\n\n_main:\n\tpush rbx\n\tpush rsi\n\tpush r12\n\tpush r13\n\tpush r14\n\tpush r15\n\tmov mem, rcx\n\tmov reg, rdx\n\tmov r14, r8\n\tmov r15, r9\n\tmov rbx, [rsp + 88]\n\txor eax, eax\n\tcall guest_start\n\tpop r15\n\tpop r14\n\tpop r13\n\tpop r12\n\tpop rsi\n\tpop rbx\n\tret\n\ntrap_read:\n\tpush rax\n\tpush rcx\n\tpush rdx\n\tmov rdx, rcx\n\tmov rcx, mem\n\tsub rsp, 32\n\tcall r14\n\tadd rsp, 32\n\tpop rdx\n\tpop rcx\n\tpop rax\n\tret\n\ntrap_write:\n\tpush rax\n\tpush rcx\n\tpush rdx\n\tmov rdx, rcx\n\tmov rcx, mem\n\tsub rsp, 32\n\tcall r15\n\tadd rsp, 32\n\tpop rdx\n\tpop rcx\n\tpop rax\n\tret\n\nguest_start:"@
}

/// The text block emitted for the instruction at address `addr`: its
/// label line when some control transfer targets the address, an
/// instruction-count increment in counting mode, the instruction's
/// template, and a closing newline.
pub open spec fn block_chars(
    ins: Instruction,
    labels: Seq<u16>,
    counting: bool,
    addr: u16,
) -> Seq<char> {
    (if labels.contains(addr) {
        label_chars(labels.index_of(addr) as nat) + ":\n"@
    } else {
        Seq::<char>::empty()
    }) + (if counting {
        "\tinc qword [rbx]\n"@
    } else {
        Seq::<char>::empty()
    }) + instr_chars(ins, labels) + "\n"@
}

/// The emitted text of the instructions of `p` from address `i` on.
pub open spec fn program_chars_from(
    p: Seq<Instruction>,
    labels: Seq<u16>,
    counting: bool,
    i: int,
) -> Seq<char>
    decreases p.len() - i,
{
    if i < 0 || i >= p.len() {
        Seq::<char>::empty()
    } else {
        block_chars(p[i], labels, counting, i as u16) + program_chars_from(
            p,
            labels,
            counting,
            i + 1,
        )
    }
}

/// The label table of a program, as a specification value: the unique
/// ascending sequence of exactly its control-transfer targets.
pub open spec fn spec_label_table(p: Seq<Instruction>) -> Seq<u16> {
    choose|l: Seq<u16>| is_label_table(l, p)
}

/// The instructions decoded from a sequence of words, in order.
pub open spec fn decoded(words: Seq<u16>) -> Seq<Instruction> {
    Seq::new(words.len(), |k: int| spec_decode(words[k]))
}

/// The whole emitted module for the well-formed program text `src`:
/// the fixed header, a blank line, then one block per instruction in
/// program order, and a closing newline.
pub open spec fn transpile_chars(src: Seq<char>, counting: bool) -> Seq<char> {
    let p = decoded(mc_words(src));
    asm_header_chars() + "\n"@ + program_chars_from(p, spec_label_table(p), counting, 0) + "\n"@
}

/// Appends the block of one instruction: its label line if `addr` is a
/// control-transfer target, the count increment in counting mode, the
/// template, and a newline.
fn push_block(out: &mut String, ins: Instruction, labels: &Vec<u16>, counting: bool, addr: u16)
    requires
        sorted_strict(labels@),
        target_of(ins) matches Some(a) ==> labels@.contains(a),
    ensures
        final(out)@ == old(out)@ + block_chars(ins, labels@, counting, addr),
{
    let mut present = false;
    let mut idx: usize = 0;
    let mut k: usize = 0;
    while k < labels.len()
        invariant
            k <= labels@.len(),
            !present ==> forall|j: int| 0 <= j < k ==> labels@[j] != addr,
            present ==> idx < labels@.len() && labels@[idx as int] == addr,
        decreases labels@.len() - k,
    {
        if labels[k] == addr {
            present = true;
            idx = k;
        }
        k += 1;
    }
    if present {
        proof {
            assert(labels@.contains(addr));
            let j = labels@.index_of(addr);
            assert(labels@[j] == addr);
            if j < idx as int {
                assert(labels@[j] < labels@[idx as int]);
                assert(false);
            } else if j > idx as int {
                assert(false);
            }
        }
        push_label(out, idx);
        out.append(":\n");
    } else {
        proof {
            if labels@.contains(addr) {
                let j = choose|j: int| 0 <= j < labels@.len() && labels@[j] == addr;
                assert(false);
            }
        }
    }
    if counting {
        out.append("\tinc qword [rbx]\n");
    }
    let body = ins.to_nasm(labels);
    out.append(body.as_str());
    out.append("\n");
    proof {
        assert(out@ =~= old(out)@ + block_chars(ins, labels@, counting, addr));
    }
}

/// Translates a whole well-formed program text: parses the words,
/// decodes them, discovers the label table, and emits the header
/// followed by one template block per instruction in program order.
/// In counting mode every block also increments the shared instruction
/// counter, and changes nothing else.
pub fn transpile(src: &str, counting: bool) -> (r: String)
    requires
        wf_mc(src@),
        src@.len() <= usize::MAX,
    ensures
        r@ == transpile_chars(src@, counting),
{
    let parsed = parse_mc_file(src);
    let instructions = disassemble(parsed.as_slice());
    let labels = find_labels(instructions.as_slice());
    let ghost p = decoded(mc_words(src@));
    proof {
        assert(instructions@ =~= p);
        assert(spec_label_table(p) == labels@) by {
            assert(is_label_table(labels@, p));
            lemma_label_determinism(p, p, spec_label_table(p), labels@);
        }
    }
    let mut out = String::new();
    out.append("bits 64\n\nsection .text\n\nglobal _DllMain\nglobal _main\n\n%define mem r12\n%define reg r13\n\n_DllMain:\n\tmov rax, 1\n\tret\n\n_main:\n\tpush rbx\n\tpush rsi\n\tpush r12\n\tpush r13\n\tpush r14\n\tpush r15\n\tmov mem, rcx\n\tmov reg, rdx\n\tmov r14, r8\n\tmov r15, r9\n\tmov rbx, [rsp + 88]\n\txor eax, eax\n\tcall guest_start\n\tpop r15\n\tpop r14\n\tpop r13\n\tpop r12\n\tpop rsi\n\tpop rbx\n\tret\n\ntrap_read:\n\tpush rax\n\tpush rcx\n\tpush rdx\n\tmov rdx, rcx\n\tmov rcx, mem\n\tsub rsp, 32\n\tcall r14\n\tadd rsp, 32\n\tpop rdx\n\tpop rcx\n\tpop rax\n\tret\n\ntrap_write:\n\tpush rax\n\tpush rcx\n\tpush rdx\n\tmov rdx, rcx\n\tmov rcx, mem\n\tsub rsp, 32\n\tcall r15\n\tadd rsp, 32\n\tpop rdx\n\tpop rcx\n\tpop rax\n\tret\n\nguest_start:");
    out.append("\n");
    let ghost base = out@;
    proof {
        assert(base =~= asm_header_chars() + "\n"@);
    }
    let mut i: usize = 0;
    while i < instructions.len()
        invariant
            sorted_strict(labels@),
            is_label_table(labels@, instructions@),
            instructions@ == p,
            i <= instructions@.len(),
            base == asm_header_chars() + "\n"@,
            out@ + program_chars_from(p, labels@, counting, i as int) == base
                + program_chars_from(p, labels@, counting, 0),
        decreases instructions@.len() - i,
    {
        proof {
            if target_of(instructions@[i as int]) is Some {
                let a = target_of(instructions@[i as int])->Some_0;
                assert(is_target(p, a)) by {
                    assert(target_of(p[i as int]) == Some(a));
                }
            }
        }
        let ghost before = out@;
        push_block(
            &mut out,
            instructions[i],
            &labels,
            counting,
            #[verifier::truncate] (i as u16),
        );
        proof {
            assert(out@ + program_chars_from(p, labels@, counting, i + 1) =~= before
                + program_chars_from(p, labels@, counting, i as int));
        }
        i += 1;
    }
    out.append("\n");
    proof {
        assert(program_chars_from(p, labels@, counting, instructions@.len() as int)
            =~= Seq::<char>::empty());
        assert(out@ =~= transpile_chars(src@, counting));
    }
    out
}

} // verus!
