//! A basic RISC-V assembler that turns one line of assembly text into a
//! 32-bit instruction word.
use vstd::prelude::*;
use crate::encode::{
    b_word, encode_b, encode_i, encode_j, encode_r, encode_s, encode_u, i_word, j_word,
    lemma_opcode_bits, r_word, s_word, u_word,
};
use crate::operand::{
    immediate_of, immediate_panics, immediate_spec, mem_operand_of, mem_operand_panics,
    mem_operand_spec, register_of, register_spec, view_res,
};
use crate::text::{
    append_chars, chars_of, eq_lit, find, find_char, find_whitespace, find_ws, split_commas,
    split_on, string_of, trim, trimmed, views,
};

verus! {

/// The instruction classes the assembler knows, with the function codes and
/// opcode that each mnemonic selects.
#[derive(Clone, Copy, Debug)]
pub enum Instr {
    Nop,
    Ecall,
    Ebreak,
    /// `op rd, rs1, rs2`
    RegReg { funct7: u32, funct3: u32, opcode: u32 },
    /// `op rd, rs1, imm`
    RegImm { funct3: u32, opcode: u32 },
    /// `op rd, rs1, shamt`; the shift amount is masked, and arithmetic right
    /// shifts set bit 10 of the immediate.
    Shift { funct3: u32, opcode: u32, mask: i64, arith: bool },
    /// `op rd, offset(rs1)`
    Load { funct3: u32 },
    /// `op rs2, offset(rs1)`
    Store { funct3: u32 },
    /// `op rs1, rs2, offset`
    Branch { funct3: u32 },
    /// `op rd, imm` with the immediate placed in bits 31..12
    Upper { opcode: u32 },
    Jal,
    Jalr,
    Li,
    Mv,
    Ret,
    J,
}

/// The class of a (lower-case) mnemonic.
pub open spec fn classify(m: Seq<char>) -> Option<Instr> {
    if m == "nop"@ {
        Some(Instr::Nop)
    } else if m == "ecall"@ {
        Some(Instr::Ecall)
    } else if m == "ebreak"@ {
        Some(Instr::Ebreak)
    } else if m == "add"@ {
        Some(Instr::RegReg { funct7: 0x00, funct3: 0x0, opcode: 0x33 })
    } else if m == "sub"@ {
        Some(Instr::RegReg { funct7: 0x20, funct3: 0x0, opcode: 0x33 })
    } else if m == "and"@ {
        Some(Instr::RegReg { funct7: 0x00, funct3: 0x7, opcode: 0x33 })
    } else if m == "or"@ {
        Some(Instr::RegReg { funct7: 0x00, funct3: 0x6, opcode: 0x33 })
    } else if m == "xor"@ {
        Some(Instr::RegReg { funct7: 0x00, funct3: 0x4, opcode: 0x33 })
    } else if m == "sll"@ {
        Some(Instr::RegReg { funct7: 0x00, funct3: 0x1, opcode: 0x33 })
    } else if m == "srl"@ {
        Some(Instr::RegReg { funct7: 0x00, funct3: 0x5, opcode: 0x33 })
    } else if m == "sra"@ {
        Some(Instr::RegReg { funct7: 0x20, funct3: 0x5, opcode: 0x33 })
    } else if m == "slt"@ {
        Some(Instr::RegReg { funct7: 0x00, funct3: 0x2, opcode: 0x33 })
    } else if m == "sltu"@ {
        Some(Instr::RegReg { funct7: 0x00, funct3: 0x3, opcode: 0x33 })
    } else if m == "addi"@ {
        Some(Instr::RegImm { funct3: 0x0, opcode: 0x13 })
    } else if m == "slti"@ {
        Some(Instr::RegImm { funct3: 0x2, opcode: 0x13 })
    } else if m == "sltiu"@ {
        Some(Instr::RegImm { funct3: 0x3, opcode: 0x13 })
    } else if m == "andi"@ {
        Some(Instr::RegImm { funct3: 0x7, opcode: 0x13 })
    } else if m == "ori"@ {
        Some(Instr::RegImm { funct3: 0x6, opcode: 0x13 })
    } else if m == "xori"@ {
        Some(Instr::RegImm { funct3: 0x4, opcode: 0x13 })
    } else if m == "slli"@ {
        Some(Instr::Shift { funct3: 0x1, opcode: 0x13, mask: 0x3F, arith: false })
    } else if m == "srli"@ {
        Some(Instr::Shift { funct3: 0x5, opcode: 0x13, mask: 0x3F, arith: false })
    } else if m == "srai"@ {
        Some(Instr::Shift { funct3: 0x5, opcode: 0x13, mask: 0x3F, arith: true })
    } else if m == "lb"@ {
        Some(Instr::Load { funct3: 0x0 })
    } else if m == "lh"@ {
        Some(Instr::Load { funct3: 0x1 })
    } else if m == "lw"@ {
        Some(Instr::Load { funct3: 0x2 })
    } else if m == "ld"@ {
        Some(Instr::Load { funct3: 0x3 })
    } else if m == "lbu"@ {
        Some(Instr::Load { funct3: 0x4 })
    } else if m == "lhu"@ {
        Some(Instr::Load { funct3: 0x5 })
    } else if m == "lwu"@ {
        Some(Instr::Load { funct3: 0x6 })
    } else if m == "sb"@ {
        Some(Instr::Store { funct3: 0x0 })
    } else if m == "sh"@ {
        Some(Instr::Store { funct3: 0x1 })
    } else if m == "sw"@ {
        Some(Instr::Store { funct3: 0x2 })
    } else if m == "sd"@ {
        Some(Instr::Store { funct3: 0x3 })
    } else if m == "beq"@ {
        Some(Instr::Branch { funct3: 0x0 })
    } else if m == "bne"@ {
        Some(Instr::Branch { funct3: 0x1 })
    } else if m == "blt"@ {
        Some(Instr::Branch { funct3: 0x4 })
    } else if m == "bge"@ {
        Some(Instr::Branch { funct3: 0x5 })
    } else if m == "bltu"@ {
        Some(Instr::Branch { funct3: 0x6 })
    } else if m == "bgeu"@ {
        Some(Instr::Branch { funct3: 0x7 })
    } else if m == "lui"@ {
        Some(Instr::Upper { opcode: 0x37 })
    } else if m == "auipc"@ {
        Some(Instr::Upper { opcode: 0x17 })
    } else if m == "jal"@ {
        Some(Instr::Jal)
    } else if m == "jalr"@ {
        Some(Instr::Jalr)
    } else if m == "addw"@ {
        Some(Instr::RegReg { funct7: 0x00, funct3: 0x0, opcode: 0x3B })
    } else if m == "subw"@ {
        Some(Instr::RegReg { funct7: 0x20, funct3: 0x0, opcode: 0x3B })
    } else if m == "sllw"@ {
        Some(Instr::RegReg { funct7: 0x00, funct3: 0x1, opcode: 0x3B })
    } else if m == "srlw"@ {
        Some(Instr::RegReg { funct7: 0x00, funct3: 0x5, opcode: 0x3B })
    } else if m == "sraw"@ {
        Some(Instr::RegReg { funct7: 0x20, funct3: 0x5, opcode: 0x3B })
    } else if m == "addiw"@ {
        Some(Instr::RegImm { funct3: 0x0, opcode: 0x1B })
    } else if m == "slliw"@ {
        Some(Instr::Shift { funct3: 0x1, opcode: 0x1B, mask: 0x1F, arith: false })
    } else if m == "srliw"@ {
        Some(Instr::Shift { funct3: 0x5, opcode: 0x1B, mask: 0x1F, arith: false })
    } else if m == "sraiw"@ {
        Some(Instr::Shift { funct3: 0x5, opcode: 0x1B, mask: 0x1F, arith: true })
    } else if m == "li"@ {
        Some(Instr::Li)
    } else if m == "mv"@ {
        Some(Instr::Mv)
    } else if m == "ret"@ {
        Some(Instr::Ret)
    } else if m == "j"@ {
        Some(Instr::J)
    } else {
        None
    }
}

/// `m` followed by `suffix`: the text of an operand-count error.
pub open spec fn count_error(m: Seq<char>, suffix: Seq<char>) -> Seq<char> {
    m + suffix
}

/// The encoding of an instruction of class `k` (mnemonic `m`) on the
/// operands `ops`, or the first error met while reading them.
pub open spec fn class_spec(k: Instr, m: Seq<char>, ops: Seq<Seq<char>>) -> Result<u32, Seq<char>> {
    match k {
        Instr::Nop => Ok(i_word(0, 0, 0, 0, 0x13)),
        Instr::Ecall => Ok(0x00000073),
        Instr::Ebreak => Ok(0x00100073),
        Instr::RegReg { funct7, funct3, opcode } => if ops.len() != 3 {
            Err(count_error(m, " requires 3 operands"@))
        } else {
            match (register_spec(ops[0]), register_spec(ops[1]), register_spec(ops[2])) {
                (Err(e), _, _) => Err(e),
                (Ok(_), Err(e), _) => Err(e),
                (Ok(_), Ok(_), Err(e)) => Err(e),
                (Ok(rd), Ok(rs1), Ok(rs2)) => Ok(r_word(funct7, rs2, rs1, funct3, rd, opcode)),
            }
        },
        Instr::RegImm { funct3, opcode } => if ops.len() != 3 {
            Err(count_error(m, " requires 3 operands"@))
        } else {
            match (register_spec(ops[0]), register_spec(ops[1]), immediate_spec(ops[2])) {
                (Err(e), _, _) => Err(e),
                (Ok(_), Err(e), _) => Err(e),
                (Ok(_), Ok(_), Err(e)) => Err(e),
                (Ok(rd), Ok(rs1), Ok(imm)) => Ok(i_word(imm, rs1, funct3, rd, opcode)),
            }
        },
        Instr::Shift { funct3, opcode, mask, arith } => if ops.len() != 3 {
            Err(count_error(m, " requires 3 operands"@))
        } else {
            match (register_spec(ops[0]), register_spec(ops[1]), immediate_spec(ops[2])) {
                (Err(e), _, _) => Err(e),
                (Ok(_), Err(e), _) => Err(e),
                (Ok(_), Ok(_), Err(e)) => Err(e),
                (Ok(rd), Ok(rs1), Ok(imm)) => Ok(
                    i_word(
                        if arith {
                            (imm & mask) | 0x400
                        } else {
                            imm & mask
                        },
                        rs1,
                        funct3,
                        rd,
                        opcode,
                    ),
                ),
            }
        },
        Instr::Load { funct3 } => if ops.len() != 2 {
            Err(count_error(m, " requires 2 operands (rd, offset(rs1))"@))
        } else {
            match (register_spec(ops[0]), mem_operand_spec(ops[1])) {
                (Err(e), _) => Err(e),
                (Ok(_), Err(e)) => Err(e),
                (Ok(rd), Ok((offset, rs1))) => Ok(i_word(offset, rs1, funct3, rd, 0x03)),
            }
        },
        Instr::Store { funct3 } => if ops.len() != 2 {
            Err(count_error(m, " requires 2 operands (rs2, offset(rs1))"@))
        } else {
            match (register_spec(ops[0]), mem_operand_spec(ops[1])) {
                (Err(e), _) => Err(e),
                (Ok(_), Err(e)) => Err(e),
                (Ok(rs2), Ok((offset, rs1))) => Ok(s_word(offset, rs2, rs1, funct3, 0x23)),
            }
        },
        Instr::Branch { funct3 } => if ops.len() != 3 {
            Err(count_error(m, " requires 3 operands"@))
        } else {
            match (register_spec(ops[0]), register_spec(ops[1]), immediate_spec(ops[2])) {
                (Err(e), _, _) => Err(e),
                (Ok(_), Err(e), _) => Err(e),
                (Ok(_), Ok(_), Err(e)) => Err(e),
                (Ok(rs1), Ok(rs2), Ok(imm)) => Ok(b_word(imm, rs2, rs1, funct3, 0x63)),
            }
        },
        Instr::Upper { opcode } => if ops.len() != 2 {
            Err(count_error(m, " requires 2 operands"@))
        } else {
            match (register_spec(ops[0]), immediate_spec(ops[1])) {
                (Err(e), _) => Err(e),
                (Ok(_), Err(e)) => Err(e),
                (Ok(rd), Ok(imm)) => Ok(u_word(((imm as u32) << 12u32) as i64, rd, opcode)),
            }
        },
        Instr::Jal => if ops.len() == 1 {
            match immediate_spec(ops[0]) {
                Err(e) => Err(e),
                Ok(imm) => Ok(j_word(imm, 1, 0x6F)),
            }
        } else if ops.len() == 2 {
            match (register_spec(ops[0]), immediate_spec(ops[1])) {
                (Err(e), _) => Err(e),
                (Ok(_), Err(e)) => Err(e),
                (Ok(rd), Ok(imm)) => Ok(j_word(imm, rd, 0x6F)),
            }
        } else {
            Err("jal requires 1 or 2 operands"@)
        },
        Instr::Jalr => if ops.len() == 2 {
            match register_spec(ops[0]) {
                Err(e) => Err(e),
                Ok(rd) => if find(ops[1], '(') is Some {
                    match mem_operand_spec(ops[1]) {
                        Err(e) => Err(e),
                        Ok((offset, rs1)) => Ok(i_word(offset, rs1, 0x0, rd, 0x67)),
                    }
                } else {
                    match register_spec(ops[1]) {
                        Err(e) => Err(e),
                        Ok(rs1) => Ok(i_word(0, rs1, 0x0, rd, 0x67)),
                    }
                },
            }
        } else if ops.len() == 3 {
            match (register_spec(ops[0]), register_spec(ops[1]), immediate_spec(ops[2])) {
                (Err(e), _, _) => Err(e),
                (Ok(_), Err(e), _) => Err(e),
                (Ok(_), Ok(_), Err(e)) => Err(e),
                (Ok(rd), Ok(rs1), Ok(offset)) => Ok(i_word(offset, rs1, 0x0, rd, 0x67)),
            }
        } else {
            Err("jalr requires 2 or 3 operands"@)
        },
        Instr::Li => if ops.len() != 2 {
            Err("li requires 2 operands"@)
        } else {
            match (register_spec(ops[0]), immediate_spec(ops[1])) {
                (Err(e), _) => Err(e),
                (Ok(_), Err(e)) => Err(e),
                (Ok(rd), Ok(imm)) => Ok(i_word(imm, 0, 0x0, rd, 0x13)),
            }
        },
        Instr::Mv => if ops.len() != 2 {
            Err("mv requires 2 operands"@)
        } else {
            match (register_spec(ops[0]), register_spec(ops[1])) {
                (Err(e), _) => Err(e),
                (Ok(_), Err(e)) => Err(e),
                (Ok(rd), Ok(rs1)) => Ok(i_word(0, rs1, 0x0, rd, 0x13)),
            }
        },
        Instr::Ret => Ok(i_word(0, 1, 0x0, 0, 0x67)),
        Instr::J => if ops.len() != 1 {
            Err("j requires 1 operand"@)
        } else {
            match immediate_spec(ops[0]) {
                Err(e) => Err(e),
                Ok(imm) => Ok(j_word(imm, 0, 0x6F)),
            }
        },
    }
}

/// Assembling an instruction of class `k` on `ops` fails at run time: an
/// immediate or memory operand that is read overflows or is malformed in a
/// way the reader does not survive.
pub open spec fn class_panics(k: Instr, ops: Seq<Seq<char>>) -> bool {
    match k {
        Instr::RegImm { .. } | Instr::Shift { .. } | Instr::Branch { .. } => ops.len() == 3
            && register_spec(ops[0]) is Ok && register_spec(ops[1]) is Ok && immediate_panics(
            ops[2],
        ),
        Instr::Load { .. } | Instr::Store { .. } => ops.len() == 2 && register_spec(ops[0]) is Ok
            && mem_operand_panics(ops[1]),
        Instr::Upper { .. } | Instr::Li => ops.len() == 2 && register_spec(ops[0]) is Ok
            && immediate_panics(ops[1]),
        Instr::Jal => (ops.len() == 1 && immediate_panics(ops[0])) || (ops.len() == 2
            && register_spec(ops[0]) is Ok && immediate_panics(ops[1])),
        Instr::Jalr => (ops.len() == 2 && register_spec(ops[0]) is Ok && find(ops[1], '(') is Some
            && mem_operand_panics(ops[1])) || (ops.len() == 3 && register_spec(ops[0]) is Ok
            && register_spec(ops[1]) is Ok && immediate_panics(ops[2])),
        Instr::J => ops.len() == 1 && immediate_panics(ops[0]),
        _ => false,
    }
}

/// The encoding of the (lower-case) mnemonic `m` on the operands `ops`.
pub open spec fn instr_spec(m: Seq<char>, ops: Seq<Seq<char>>) -> Result<u32, Seq<char>> {
    match classify(m) {
        None => Err("unsupported instruction: "@ + m),
        Some(k) => class_spec(k, m, ops),
    }
}

/// Whether assembling `m` on `ops` fails at run time.
pub open spec fn instr_panics(m: Seq<char>, ops: Seq<Seq<char>>) -> bool {
    match classify(m) {
        None => false,
        Some(k) => class_panics(k, ops),
    }
}

/// The comma-separated operands in `rest`, each trimmed; none when `rest`
/// is blank.
pub open spec fn operand_list(rest: Seq<char>) -> Seq<Seq<char>> {
    let r = trim(rest);
    if r.len() == 0 {
        Seq::empty()
    } else {
        split_on(r, ',').map_values(|p: Seq<char>| trim(p))
    }
}

/// The mnemonic of a trimmed line: everything before the first whitespace.
pub open spec fn mnemonic_of(t: Seq<char>) -> Seq<char> {
    match find_ws(t) {
        None => t,
        Some(k) => t.take(k),
    }
}

/// The operand text of a trimmed line: everything after the first
/// whitespace character.
pub open spec fn operands_of(t: Seq<char>) -> Seq<char> {
    match find_ws(t) {
        None => Seq::empty(),
        Some(k) => t.skip(k + 1),
    }
}

/// The text that `str::to_lowercase` gives for `s`.
pub uninterp spec fn lowercase(s: Seq<char>) -> Seq<char>;

/// What assembling `line` gives: the trimmed line's mnemonic, taken in
/// lower case, encoded on its operands.
pub open spec fn assemble_spec(line: Seq<char>) -> Result<u32, Seq<char>> {
    let t = trim(line);
    if t.len() == 0 {
        Err("empty instruction"@)
    } else {
        instr_spec(lowercase(mnemonic_of(t)), operand_list(operands_of(t)))
    }
}

/// Whether assembling `line` fails at run time.
pub open spec fn assemble_panics(line: Seq<char>) -> bool {
    let t = trim(line);
    t.len() > 0 && instr_panics(lowercase(mnemonic_of(t)), operand_list(operands_of(t)))
}

/// `str::to_lowercase`: the lower-case form of `s`, by the Unicode
/// `Lowercase` mapping. The contract only names the result; what the mapping
/// is on given characters is left unsaid.
#[verifier::external_body]
fn to_lowercase(s: &str) -> (r: String)
    ensures
        r@ == lowercase(s@),
{
    s.to_lowercase()
}

fn classify_of(m: &[char]) -> (r: Option<Instr>)
    ensures
        r == classify(m@),
{
    if eq_lit(m, "nop") {
        Some(Instr::Nop)
    } else if eq_lit(m, "ecall") {
        Some(Instr::Ecall)
    } else if eq_lit(m, "ebreak") {
        Some(Instr::Ebreak)
    } else if eq_lit(m, "add") {
        Some(Instr::RegReg { funct7: 0x00, funct3: 0x0, opcode: 0x33 })
    } else if eq_lit(m, "sub") {
        Some(Instr::RegReg { funct7: 0x20, funct3: 0x0, opcode: 0x33 })
    } else if eq_lit(m, "and") {
        Some(Instr::RegReg { funct7: 0x00, funct3: 0x7, opcode: 0x33 })
    } else if eq_lit(m, "or") {
        Some(Instr::RegReg { funct7: 0x00, funct3: 0x6, opcode: 0x33 })
    } else if eq_lit(m, "xor") {
        Some(Instr::RegReg { funct7: 0x00, funct3: 0x4, opcode: 0x33 })
    } else if eq_lit(m, "sll") {
        Some(Instr::RegReg { funct7: 0x00, funct3: 0x1, opcode: 0x33 })
    } else if eq_lit(m, "srl") {
        Some(Instr::RegReg { funct7: 0x00, funct3: 0x5, opcode: 0x33 })
    } else if eq_lit(m, "sra") {
        Some(Instr::RegReg { funct7: 0x20, funct3: 0x5, opcode: 0x33 })
    } else if eq_lit(m, "slt") {
        Some(Instr::RegReg { funct7: 0x00, funct3: 0x2, opcode: 0x33 })
    } else if eq_lit(m, "sltu") {
        Some(Instr::RegReg { funct7: 0x00, funct3: 0x3, opcode: 0x33 })
    } else if eq_lit(m, "addi") {
        Some(Instr::RegImm { funct3: 0x0, opcode: 0x13 })
    } else if eq_lit(m, "slti") {
        Some(Instr::RegImm { funct3: 0x2, opcode: 0x13 })
    } else if eq_lit(m, "sltiu") {
        Some(Instr::RegImm { funct3: 0x3, opcode: 0x13 })
    } else if eq_lit(m, "andi") {
        Some(Instr::RegImm { funct3: 0x7, opcode: 0x13 })
    } else if eq_lit(m, "ori") {
        Some(Instr::RegImm { funct3: 0x6, opcode: 0x13 })
    } else if eq_lit(m, "xori") {
        Some(Instr::RegImm { funct3: 0x4, opcode: 0x13 })
    } else if eq_lit(m, "slli") {
        Some(Instr::Shift { funct3: 0x1, opcode: 0x13, mask: 0x3F, arith: false })
    } else if eq_lit(m, "srli") {
        Some(Instr::Shift { funct3: 0x5, opcode: 0x13, mask: 0x3F, arith: false })
    } else if eq_lit(m, "srai") {
        Some(Instr::Shift { funct3: 0x5, opcode: 0x13, mask: 0x3F, arith: true })
    } else if eq_lit(m, "lb") {
        Some(Instr::Load { funct3: 0x0 })
    } else if eq_lit(m, "lh") {
        Some(Instr::Load { funct3: 0x1 })
    } else if eq_lit(m, "lw") {
        Some(Instr::Load { funct3: 0x2 })
    } else if eq_lit(m, "ld") {
        Some(Instr::Load { funct3: 0x3 })
    } else if eq_lit(m, "lbu") {
        Some(Instr::Load { funct3: 0x4 })
    } else if eq_lit(m, "lhu") {
        Some(Instr::Load { funct3: 0x5 })
    } else if eq_lit(m, "lwu") {
        Some(Instr::Load { funct3: 0x6 })
    } else if eq_lit(m, "sb") {
        Some(Instr::Store { funct3: 0x0 })
    } else if eq_lit(m, "sh") {
        Some(Instr::Store { funct3: 0x1 })
    } else if eq_lit(m, "sw") {
        Some(Instr::Store { funct3: 0x2 })
    } else if eq_lit(m, "sd") {
        Some(Instr::Store { funct3: 0x3 })
    } else if eq_lit(m, "beq") {
        Some(Instr::Branch { funct3: 0x0 })
    } else if eq_lit(m, "bne") {
        Some(Instr::Branch { funct3: 0x1 })
    } else if eq_lit(m, "blt") {
        Some(Instr::Branch { funct3: 0x4 })
    } else if eq_lit(m, "bge") {
        Some(Instr::Branch { funct3: 0x5 })
    } else if eq_lit(m, "bltu") {
        Some(Instr::Branch { funct3: 0x6 })
    } else if eq_lit(m, "bgeu") {
        Some(Instr::Branch { funct3: 0x7 })
    } else if eq_lit(m, "lui") {
        Some(Instr::Upper { opcode: 0x37 })
    } else if eq_lit(m, "auipc") {
        Some(Instr::Upper { opcode: 0x17 })
    } else if eq_lit(m, "jal") {
        Some(Instr::Jal)
    } else if eq_lit(m, "jalr") {
        Some(Instr::Jalr)
    } else if eq_lit(m, "addw") {
        Some(Instr::RegReg { funct7: 0x00, funct3: 0x0, opcode: 0x3B })
    } else if eq_lit(m, "subw") {
        Some(Instr::RegReg { funct7: 0x20, funct3: 0x0, opcode: 0x3B })
    } else if eq_lit(m, "sllw") {
        Some(Instr::RegReg { funct7: 0x00, funct3: 0x1, opcode: 0x3B })
    } else if eq_lit(m, "srlw") {
        Some(Instr::RegReg { funct7: 0x00, funct3: 0x5, opcode: 0x3B })
    } else if eq_lit(m, "sraw") {
        Some(Instr::RegReg { funct7: 0x20, funct3: 0x5, opcode: 0x3B })
    } else if eq_lit(m, "addiw") {
        Some(Instr::RegImm { funct3: 0x0, opcode: 0x1B })
    } else if eq_lit(m, "slliw") {
        Some(Instr::Shift { funct3: 0x1, opcode: 0x1B, mask: 0x1F, arith: false })
    } else if eq_lit(m, "srliw") {
        Some(Instr::Shift { funct3: 0x5, opcode: 0x1B, mask: 0x1F, arith: false })
    } else if eq_lit(m, "sraiw") {
        Some(Instr::Shift { funct3: 0x5, opcode: 0x1B, mask: 0x1F, arith: true })
    } else if eq_lit(m, "li") {
        Some(Instr::Li)
    } else if eq_lit(m, "mv") {
        Some(Instr::Mv)
    } else if eq_lit(m, "ret") {
        Some(Instr::Ret)
    } else if eq_lit(m, "j") {
        Some(Instr::J)
    } else {
        None
    }
}

fn count_error_string(m: &[char], suffix: &str) -> (s: String)
    ensures
        s@ == count_error(m@, suffix@),
{
    let mut s = string_of(m);
    s.append(suffix);
    s
}

fn asm_reg_reg(m: &[char], ops: &Vec<Vec<char>>, funct7: u32, funct3: u32, opcode: u32) -> (r:
    Result<u32, String>)
    ensures
        view_res(r) == class_spec(
            Instr::RegReg { funct7, funct3, opcode },
            m@,
            views(ops@),
        ),
{
    if ops.len() != 3 {
        return Err(count_error_string(m, " requires 3 operands"));
    }
    assert(views(ops@)[0] == ops@[0]@ && views(ops@)[1] == ops@[1]@ && views(ops@)[2]
        == ops@[2]@);
    let rd = match register_of(ops[0].as_slice()) {
        Ok(v) => v,
        Err(e) => return Err(e),
    };
    let rs1 = match register_of(ops[1].as_slice()) {
        Ok(v) => v,
        Err(e) => return Err(e),
    };
    let rs2 = match register_of(ops[2].as_slice()) {
        Ok(v) => v,
        Err(e) => return Err(e),
    };
    Ok(encode_r(funct7, rs2, rs1, funct3, rd, opcode))
}

/// Register, register, immediate: the operands of `RegImm`, `Shift` and
/// `Branch` instructions.
fn reg_reg_imm(ops: &Vec<Vec<char>>) -> (r: Option<Result<(u32, u32, i64), String>>)
    requires
        ops@.len() == 3,
    ensures
        r is None <==> (register_spec(ops@[0]@) is Ok && register_spec(ops@[1]@) is Ok
            && immediate_panics(ops@[2]@)),
        r matches Some(x) ==> match (
            register_spec(ops@[0]@),
            register_spec(ops@[1]@),
            immediate_spec(ops@[2]@),
        ) {
            (Err(e), _, _) => x matches Err(e2) && e2@ == e,
            (Ok(_), Err(e), _) => x matches Err(e2) && e2@ == e,
            (Ok(_), Ok(_), Err(e)) => x matches Err(e2) && e2@ == e,
            (Ok(a), Ok(b), Ok(c)) => x == Ok::<(u32, u32, i64), String>((a, b, c)),
        },
{
    let a = match register_of(ops[0].as_slice()) {
        Ok(v) => v,
        Err(e) => return Some(Err(e)),
    };
    let b = match register_of(ops[1].as_slice()) {
        Ok(v) => v,
        Err(e) => return Some(Err(e)),
    };
    match immediate_of(ops[2].as_slice()) {
        None => None,
        Some(Err(e)) => Some(Err(e)),
        Some(Ok(c)) => Some(Ok((a, b, c))),
    }
}

/// Register, then an immediate: the operands of `Upper`, `Li` and two-operand
/// `Jal` instructions.
fn reg_imm(ops: &Vec<Vec<char>>) -> (r: Option<Result<(u32, i64), String>>)
    requires
        ops@.len() == 2,
    ensures
        r is None <==> (register_spec(ops@[0]@) is Ok && immediate_panics(ops@[1]@)),
        r matches Some(x) ==> match (register_spec(ops@[0]@), immediate_spec(ops@[1]@)) {
            (Err(e), _) => x matches Err(e2) && e2@ == e,
            (Ok(_), Err(e)) => x matches Err(e2) && e2@ == e,
            (Ok(a), Ok(c)) => x == Ok::<(u32, i64), String>((a, c)),
        },
{
    let a = match register_of(ops[0].as_slice()) {
        Ok(v) => v,
        Err(e) => return Some(Err(e)),
    };
    match immediate_of(ops[1].as_slice()) {
        None => None,
        Some(Err(e)) => Some(Err(e)),
        Some(Ok(c)) => Some(Ok((a, c))),
    }
}

/// Register, then `offset(register)`: the operands of loads and stores.
fn reg_mem(ops: &Vec<Vec<char>>) -> (r: Option<Result<(u32, i64, u32), String>>)
    requires
        ops@.len() == 2,
    ensures
        r is None <==> (register_spec(ops@[0]@) is Ok && mem_operand_panics(ops@[1]@)),
        r matches Some(x) ==> match (register_spec(ops@[0]@), mem_operand_spec(ops@[1]@)) {
            (Err(e), _) => x matches Err(e2) && e2@ == e,
            (Ok(_), Err(e)) => x matches Err(e2) && e2@ == e,
            (Ok(a), Ok((o, b))) => x == Ok::<(u32, i64, u32), String>((a, o, b)),
        },
{
    let a = match register_of(ops[0].as_slice()) {
        Ok(v) => v,
        Err(e) => return Some(Err(e)),
    };
    match mem_operand_of(ops[1].as_slice()) {
        None => None,
        Some(Err(e)) => Some(Err(e)),
        Some(Ok((o, b))) => Some(Ok((a, o, b))),
    }
}

/// Encodes an instruction of class `k` (mnemonic `m`) on `ops`; `None`
/// exactly where reading its operands fails at run time.
fn class_of(k: Instr, m: &[char], ops: &Vec<Vec<char>>) -> (r: Option<Result<u32, String>>)
    ensures
        r is None <==> class_panics(k, views(ops@)),
        r matches Some(x) ==> view_res(x) == class_spec(k, m@, views(ops@)),
{
    let ghost v = views(ops@);
    assert(ops@.len() >= 1 ==> v[0] == ops@[0]@);
    assert(ops@.len() >= 2 ==> v[1] == ops@[1]@);
    assert(ops@.len() >= 3 ==> v[2] == ops@[2]@);
    match k {
        Instr::Nop => Some(Ok(encode_i(0, 0, 0, 0, 0x13))),
        Instr::Ecall => Some(Ok(0x00000073)),
        Instr::Ebreak => Some(Ok(0x00100073)),
        Instr::RegReg { funct7, funct3, opcode } => Some(
            asm_reg_reg(m, ops, funct7, funct3, opcode),
        ),
        Instr::RegImm { funct3, opcode } => {
            if ops.len() != 3 {
                return Some(Err(count_error_string(m, " requires 3 operands")));
            }
            match reg_reg_imm(ops) {
                None => None,
                Some(Err(e)) => Some(Err(e)),
                Some(Ok((rd, rs1, imm))) => Some(Ok(encode_i(imm, rs1, funct3, rd, opcode))),
            }
        },
        Instr::Shift { funct3, opcode, mask, arith } => {
            if ops.len() != 3 {
                return Some(Err(count_error_string(m, " requires 3 operands")));
            }
            match reg_reg_imm(ops) {
                None => None,
                Some(Err(e)) => Some(Err(e)),
                Some(Ok((rd, rs1, imm))) => {
                    let shamt = if arith {
                        (imm & mask) | 0x400
                    } else {
                        imm & mask
                    };
                    Some(Ok(encode_i(shamt, rs1, funct3, rd, opcode)))
                },
            }
        },
        Instr::Load { funct3 } => {
            if ops.len() != 2 {
                return Some(Err(count_error_string(m, " requires 2 operands (rd, offset(rs1))")));
            }
            match reg_mem(ops) {
                None => None,
                Some(Err(e)) => Some(Err(e)),
                Some(Ok((rd, offset, rs1))) => Some(Ok(encode_i(offset, rs1, funct3, rd, 0x03))),
            }
        },
        Instr::Store { funct3 } => {
            if ops.len() != 2 {
                return Some(
                    Err(count_error_string(m, " requires 2 operands (rs2, offset(rs1))")),
                );
            }
            match reg_mem(ops) {
                None => None,
                Some(Err(e)) => Some(Err(e)),
                Some(Ok((rs2, offset, rs1))) => Some(Ok(encode_s(offset, rs2, rs1, funct3, 0x23))),
            }
        },
        Instr::Branch { funct3 } => {
            if ops.len() != 3 {
                return Some(Err(count_error_string(m, " requires 3 operands")));
            }
            match reg_reg_imm(ops) {
                None => None,
                Some(Err(e)) => Some(Err(e)),
                Some(Ok((rs1, rs2, imm))) => Some(Ok(encode_b(imm, rs2, rs1, funct3, 0x63))),
            }
        },
        Instr::Upper { opcode } => {
            if ops.len() != 2 {
                return Some(Err(count_error_string(m, " requires 2 operands")));
            }
            match reg_imm(ops) {
                None => None,
                Some(Err(e)) => Some(Err(e)),
                Some(Ok((rd, imm))) => {
                    let imm_val = (imm as u32) << 12u32;
                    Some(Ok(encode_u(imm_val as i64, rd, opcode)))
                },
            }
        },
        Instr::Jal => {
            if ops.len() == 1 {
                match immediate_of(ops[0].as_slice()) {
                    None => None,
                    Some(Err(e)) => Some(Err(e)),
                    Some(Ok(imm)) => Some(Ok(encode_j(imm, 1, 0x6F))),
                }
            } else if ops.len() == 2 {
                match reg_imm(ops) {
                    None => None,
                    Some(Err(e)) => Some(Err(e)),
                    Some(Ok((rd, imm))) => Some(Ok(encode_j(imm, rd, 0x6F))),
                }
            } else {
                Some(Err(String::from_str("jal requires 1 or 2 operands")))
            }
        },
        Instr::Jalr => {
            if ops.len() == 2 {
                let rd = match register_of(ops[0].as_slice()) {
                    Ok(v) => v,
                    Err(e) => return Some(Err(e)),
                };
                if find_char(ops[1].as_slice(), '(').is_some() {
                    match mem_operand_of(ops[1].as_slice()) {
                        None => None,
                        Some(Err(e)) => Some(Err(e)),
                        Some(Ok((offset, rs1))) => Some(Ok(encode_i(offset, rs1, 0x0, rd, 0x67))),
                    }
                } else {
                    match register_of(ops[1].as_slice()) {
                        Err(e) => Some(Err(e)),
                        Ok(rs1) => Some(Ok(encode_i(0, rs1, 0x0, rd, 0x67))),
                    }
                }
            } else if ops.len() == 3 {
                match reg_reg_imm(ops) {
                    None => None,
                    Some(Err(e)) => Some(Err(e)),
                    Some(Ok((rd, rs1, offset))) => Some(Ok(encode_i(offset, rs1, 0x0, rd, 0x67))),
                }
            } else {
                Some(Err(String::from_str("jalr requires 2 or 3 operands")))
            }
        },
        Instr::Li => {
            if ops.len() != 2 {
                return Some(Err(String::from_str("li requires 2 operands")));
            }
            match reg_imm(ops) {
                None => None,
                Some(Err(e)) => Some(Err(e)),
                Some(Ok((rd, imm))) => Some(Ok(encode_i(imm, 0, 0x0, rd, 0x13))),
            }
        },
        Instr::Mv => {
            if ops.len() != 2 {
                return Some(Err(String::from_str("mv requires 2 operands")));
            }
            let rd = match register_of(ops[0].as_slice()) {
                Ok(v) => v,
                Err(e) => return Some(Err(e)),
            };
            match register_of(ops[1].as_slice()) {
                Err(e) => Some(Err(e)),
                Ok(rs1) => Some(Ok(encode_i(0, rs1, 0x0, rd, 0x13))),
            }
        },
        Instr::Ret => Some(Ok(encode_i(0, 1, 0x0, 0, 0x67))),
        Instr::J => {
            if ops.len() != 1 {
                return Some(Err(String::from_str("j requires 1 operand")));
            }
            match immediate_of(ops[0].as_slice()) {
                None => None,
                Some(Err(e)) => Some(Err(e)),
                Some(Ok(imm)) => Some(Ok(encode_j(imm, 0, 0x6F))),
            }
        },
    }
}

/// Encodes the (lower-case) mnemonic `m` on `ops`; `None` exactly where
/// reading the operands fails at run time.
fn instr_of(m: &[char], ops: &Vec<Vec<char>>) -> (r: Option<Result<u32, String>>)
    ensures
        r is None <==> instr_panics(m@, views(ops@)),
        r matches Some(x) ==> view_res(x) == instr_spec(m@, views(ops@)),
{
    match classify_of(m) {
        None => {
            let mut e = String::from_str("unsupported instruction: ");
            append_chars(&mut e, m);
            Some(Err(e))
        },
        Some(k) => class_of(k, m, ops),
    }
}

/// The operands written in `rest`: split at commas and trimmed.
fn operand_list_of(rest: &[char]) -> (v: Vec<Vec<char>>)
    ensures
        views(v@) == operand_list(rest@),
{
    let r = trimmed(rest);
    if r.len() == 0 {
        let v: Vec<Vec<char>> = Vec::new();
        assert(views(v@) =~= operand_list(rest@));
        return v;
    }
    let pieces = split_commas(r);
    let ghost sp = split_on(r@, ',');
    let mut out: Vec<Vec<char>> = Vec::new();
    let mut i: usize = 0;
    while i < pieces.len()
        invariant
            i <= pieces@.len(),
            views(pieces@) == sp,
            views(out@) == sp.take(i as int).map_values(|p: Seq<char>| trim(p)),
        decreases pieces@.len() - i,
    {
        let piece = trimmed(pieces[i].as_slice());
        assert(views(pieces@)[i as int] == pieces@[i as int]@);
        let ghost before = views(out@);
        out.push(vstd::slice::slice_to_vec(piece));
        assert(views(out@) =~= before.push(trim(sp[i as int])));
        assert(sp.take(i + 1).map_values(|p: Seq<char>| trim(p)) =~= sp.take(i as int).map_values(
            |p: Seq<char>| trim(p),
        ).push(trim(sp[i as int])));
        i = i + 1;
    }
    assert(sp.take(pieces@.len() as int) =~= sp);
    out
}

/// Assembles the lower-case mnemonic `mnemonic` on the operand text
/// `operands` (everything after the mnemonic, comma-separated).
pub fn assemble_parts(mnemonic: &str, operands: &str) -> (r: Result<u32, String>)
    requires
        !instr_panics(mnemonic@, operand_list(operands@)),
    ensures
        view_res(r) == instr_spec(mnemonic@, operand_list(operands@)),
{
    let m = chars_of(mnemonic);
    let rest = chars_of(operands);
    let ops = operand_list_of(rest.as_slice());
    match instr_of(m.as_slice(), &ops) {
        Some(r) => r,
        None => {
            proof {
                assert(false);
            }
            Err(String::new())
        },
    }
}

/// Assembles one line of RISC-V assembly; `None` exactly where the line
/// makes the reading of an operand fail at run time (see `assemble_panics`).
pub fn try_assemble(line: &str) -> (r: Option<Result<u32, String>>)
    ensures
        r is None <==> assemble_panics(line@),
        r matches Some(x) ==> view_res(x) == assemble_spec(line@),
{
    let cs = chars_of(line);
    let t = trimmed(cs.as_slice());
    if t.len() == 0 {
        return Some(Err(String::from_str("empty instruction")));
    }
    let (mnemonic, rest) = match find_whitespace(t) {
        None => (t, vstd::slice::slice_subrange(t, 0, 0)),
        Some(k) => {
            proof {
                crate::text::lemma_find_ws_bounds(t@);
            }
            (vstd::slice::slice_subrange(t, 0, k), vstd::slice::slice_subrange(t, k + 1, t.len()))
        },
    };
    assert(mnemonic@ =~= mnemonic_of(t@));
    assert(rest@ =~= operands_of(t@));
    let lower = to_lowercase(string_of(mnemonic).as_str());
    let m = chars_of(lower.as_str());
    let ops = operand_list_of(rest);
    instr_of(m.as_slice(), &ops)
}

/// Assembles one line of RISC-V assembly into its 32-bit instruction word.
pub fn assemble(line: &str) -> (r: Result<u32, String>)
    requires
        !assemble_panics(line@),
    ensures
        view_res(r) == assemble_spec(line@),
{
    match try_assemble(line) {
        Some(r) => r,
        None => {
            proof {
                assert(false);
            }
            Err(String::new())
        },
    }
}

/// The major opcodes of the base RV64I instructions this assembler emits.
pub open spec fn is_base_opcode(op: u32) -> bool {
    ||| op == 0x03
    ||| op == 0x13
    ||| op == 0x17
    ||| op == 0x1B
    ||| op == 0x23
    ||| op == 0x33
    ||| op == 0x37
    ||| op == 0x3B
    ||| op == 0x63
    ||| op == 0x67
    ||| op == 0x6F
    ||| op == 0x73
}

/// The opcodes a class can carry.
pub open spec fn class_opcode_ok(k: Instr) -> bool {
    match k {
        Instr::RegReg { funct7, funct3, opcode } => opcode == 0x33 || opcode == 0x3B,
        Instr::RegImm { funct3, opcode } => opcode == 0x13 || opcode == 0x1B,
        Instr::Shift { funct3, opcode, mask, arith } => opcode == 0x13 || opcode == 0x1B,
        Instr::Upper { opcode } => opcode == 0x37 || opcode == 0x17,
        _ => true,
    }
}

proof fn lemma_classify_opcode(m: Seq<char>)
    ensures
        classify(m) matches Some(k) ==> class_opcode_ok(k),
{
}

proof fn lemma_words_opcode()
    ensures
        forall|f: u32, a: u32, b: u32, c: u32, d: u32, op: u32| #[trigger]
            r_word(f, a, b, c, d, op) & 127 == op & 127,
        forall|imm: i64, a: u32, b: u32, c: u32, op: u32| #[trigger]
            i_word(imm, a, b, c, op) & 127 == op & 127,
        forall|imm: i64, a: u32, b: u32, c: u32, op: u32| #[trigger]
            s_word(imm, a, b, c, op) & 127 == op & 127,
        forall|imm: i64, a: u32, b: u32, c: u32, op: u32| #[trigger]
            b_word(imm, a, b, c, op) & 127 == op & 127,
        forall|imm: i64, a: u32, op: u32| #[trigger] u_word(imm, a, op) & 127 == op & 127,
        forall|imm: i64, a: u32, op: u32| #[trigger] j_word(imm, a, op) & 127 == op & 127,
        forall|op: u32| op < 128 ==> #[trigger] (op & 127) == op,
{
    assert forall|op: u32| op < 128 implies #[trigger] (op & 127) == op by {
        assert(op & 127 == op) by (bit_vector)
            requires
                op < 128,
        ;
    }
    assert forall|f: u32, a: u32, b: u32, c: u32, d: u32, op: u32| #[trigger]
        r_word(f, a, b, c, d, op) & 127 == op & 127 by {
        lemma_opcode_bits(f, a, b, c, d, op, 0);
    }
    assert forall|imm: i64, a: u32, b: u32, c: u32, op: u32| #[trigger]
        i_word(imm, a, b, c, op) & 127 == op & 127 by {
        lemma_opcode_bits(0, a, b, c, 0, op, imm);
    }
    assert forall|imm: i64, a: u32, b: u32, c: u32, op: u32| #[trigger]
        s_word(imm, a, b, c, op) & 127 == op & 127 by {
        lemma_opcode_bits(0, a, b, c, 0, op, imm);
    }
    assert forall|imm: i64, a: u32, b: u32, c: u32, op: u32| #[trigger]
        b_word(imm, a, b, c, op) & 127 == op & 127 by {
        lemma_opcode_bits(0, a, b, c, 0, op, imm);
    }
    assert forall|imm: i64, a: u32, op: u32| #[trigger] u_word(imm, a, op) & 127 == op & 127 by {
        lemma_opcode_bits(0, a, 0, 0, 0, op, imm);
    }
    assert forall|imm: i64, a: u32, op: u32| #[trigger] j_word(imm, a, op) & 127 == op & 127 by {
        lemma_opcode_bits(0, a, 0, 0, 0, op, imm);
    }
}

/// Every word the assembler produces carries one of the base major opcodes
/// in its low seven bits, so its low two bits are `0b11`: it is a full
/// 32-bit instruction, never a compressed one.
pub proof fn law_assembled_opcode(m: Seq<char>, ops: Seq<Seq<char>>)
    ensures
        instr_spec(m, ops) matches Ok(w) ==> is_base_opcode(w & 127) && w & 3 == 3,
{
    lemma_classify_opcode(m);
    lemma_words_opcode();
    assert(0x73u32 & 127 == 0x73) by (bit_vector);
    assert(0x100073u32 & 127 == 0x73) by (bit_vector);
    if let Ok(w) = instr_spec(m, ops) {
        let low = w & 127;
        assert(w & 3 == low & 3) by (bit_vector)
            requires
                low == w & 127,
        ;
        assert(is_base_opcode(low));
        assert(is_base_opcode(low) ==> low & 3 == 3) by (bit_vector);
    }
}

/// Every line the assembler accepts becomes a full 32-bit instruction.
pub proof fn law_assemble_not_compressed(line: Seq<char>)
    ensures
        assemble_spec(line) matches Ok(w) ==> is_base_opcode(w & 127) && w & 3 == 3,
{
    let t = trim(line);
    if t.len() > 0 {
        law_assembled_opcode(lowercase(mnemonic_of(t)), operand_list(operands_of(t)));
    }
}

/// The class of every mnemonic the assembler knows.
pub(crate) proof fn lemma_known_classes()
    ensures
        classify("nop"@) == Some(Instr::Nop),
        classify("ecall"@) == Some(Instr::Ecall),
        classify("ebreak"@) == Some(Instr::Ebreak),
        classify("add"@) == Some(Instr::RegReg { funct7: 0x00, funct3: 0x0, opcode: 0x33 }),
        classify("sub"@) == Some(Instr::RegReg { funct7: 0x20, funct3: 0x0, opcode: 0x33 }),
        classify("and"@) == Some(Instr::RegReg { funct7: 0x00, funct3: 0x7, opcode: 0x33 }),
        classify("or"@) == Some(Instr::RegReg { funct7: 0x00, funct3: 0x6, opcode: 0x33 }),
        classify("xor"@) == Some(Instr::RegReg { funct7: 0x00, funct3: 0x4, opcode: 0x33 }),
        classify("sll"@) == Some(Instr::RegReg { funct7: 0x00, funct3: 0x1, opcode: 0x33 }),
        classify("srl"@) == Some(Instr::RegReg { funct7: 0x00, funct3: 0x5, opcode: 0x33 }),
        classify("sra"@) == Some(Instr::RegReg { funct7: 0x20, funct3: 0x5, opcode: 0x33 }),
        classify("slt"@) == Some(Instr::RegReg { funct7: 0x00, funct3: 0x2, opcode: 0x33 }),
        classify("sltu"@) == Some(Instr::RegReg { funct7: 0x00, funct3: 0x3, opcode: 0x33 }),
        classify("addi"@) == Some(Instr::RegImm { funct3: 0x0, opcode: 0x13 }),
        classify("slti"@) == Some(Instr::RegImm { funct3: 0x2, opcode: 0x13 }),
        classify("sltiu"@) == Some(Instr::RegImm { funct3: 0x3, opcode: 0x13 }),
        classify("andi"@) == Some(Instr::RegImm { funct3: 0x7, opcode: 0x13 }),
        classify("ori"@) == Some(Instr::RegImm { funct3: 0x6, opcode: 0x13 }),
        classify("xori"@) == Some(Instr::RegImm { funct3: 0x4, opcode: 0x13 }),
        classify("slli"@) == Some(Instr::Shift { funct3: 0x1, opcode: 0x13, mask: 0x3F, arith: false }),
        classify("srli"@) == Some(Instr::Shift { funct3: 0x5, opcode: 0x13, mask: 0x3F, arith: false }),
        classify("srai"@) == Some(Instr::Shift { funct3: 0x5, opcode: 0x13, mask: 0x3F, arith: true }),
        classify("lb"@) == Some(Instr::Load { funct3: 0x0 }),
        classify("lh"@) == Some(Instr::Load { funct3: 0x1 }),
        classify("lw"@) == Some(Instr::Load { funct3: 0x2 }),
        classify("ld"@) == Some(Instr::Load { funct3: 0x3 }),
        classify("lbu"@) == Some(Instr::Load { funct3: 0x4 }),
        classify("lhu"@) == Some(Instr::Load { funct3: 0x5 }),
        classify("lwu"@) == Some(Instr::Load { funct3: 0x6 }),
        classify("sb"@) == Some(Instr::Store { funct3: 0x0 }),
        classify("sh"@) == Some(Instr::Store { funct3: 0x1 }),
        classify("sw"@) == Some(Instr::Store { funct3: 0x2 }),
        classify("sd"@) == Some(Instr::Store { funct3: 0x3 }),
        classify("beq"@) == Some(Instr::Branch { funct3: 0x0 }),
        classify("bne"@) == Some(Instr::Branch { funct3: 0x1 }),
        classify("blt"@) == Some(Instr::Branch { funct3: 0x4 }),
        classify("bge"@) == Some(Instr::Branch { funct3: 0x5 }),
        classify("bltu"@) == Some(Instr::Branch { funct3: 0x6 }),
        classify("bgeu"@) == Some(Instr::Branch { funct3: 0x7 }),
        classify("lui"@) == Some(Instr::Upper { opcode: 0x37 }),
        classify("auipc"@) == Some(Instr::Upper { opcode: 0x17 }),
        classify("jal"@) == Some(Instr::Jal),
        classify("jalr"@) == Some(Instr::Jalr),
        classify("addw"@) == Some(Instr::RegReg { funct7: 0x00, funct3: 0x0, opcode: 0x3B }),
        classify("subw"@) == Some(Instr::RegReg { funct7: 0x20, funct3: 0x0, opcode: 0x3B }),
        classify("sllw"@) == Some(Instr::RegReg { funct7: 0x00, funct3: 0x1, opcode: 0x3B }),
        classify("srlw"@) == Some(Instr::RegReg { funct7: 0x00, funct3: 0x5, opcode: 0x3B }),
        classify("sraw"@) == Some(Instr::RegReg { funct7: 0x20, funct3: 0x5, opcode: 0x3B }),
        classify("addiw"@) == Some(Instr::RegImm { funct3: 0x0, opcode: 0x1B }),
        classify("slliw"@) == Some(Instr::Shift { funct3: 0x1, opcode: 0x1B, mask: 0x1F, arith: false }),
        classify("srliw"@) == Some(Instr::Shift { funct3: 0x5, opcode: 0x1B, mask: 0x1F, arith: false }),
        classify("sraiw"@) == Some(Instr::Shift { funct3: 0x5, opcode: 0x1B, mask: 0x1F, arith: true }),
        classify("li"@) == Some(Instr::Li),
        classify("mv"@) == Some(Instr::Mv),
        classify("ret"@) == Some(Instr::Ret),
        classify("j"@) == Some(Instr::J),
{
    reveal_strlit("nop");
    assert("nop"@ =~= seq!['n', 'o', 'p']);
    reveal_strlit("ecall");
    assert("ecall"@ =~= seq!['e', 'c', 'a', 'l', 'l']);
    reveal_strlit("ebreak");
    assert("ebreak"@ =~= seq!['e', 'b', 'r', 'e', 'a', 'k']);
    reveal_strlit("add");
    assert("add"@ =~= seq!['a', 'd', 'd']);
    reveal_strlit("sub");
    assert("sub"@ =~= seq!['s', 'u', 'b']);
    reveal_strlit("and");
    assert("and"@ =~= seq!['a', 'n', 'd']);
    reveal_strlit("or");
    assert("or"@ =~= seq!['o', 'r']);
    reveal_strlit("xor");
    assert("xor"@ =~= seq!['x', 'o', 'r']);
    reveal_strlit("sll");
    assert("sll"@ =~= seq!['s', 'l', 'l']);
    reveal_strlit("srl");
    assert("srl"@ =~= seq!['s', 'r', 'l']);
    reveal_strlit("sra");
    assert("sra"@ =~= seq!['s', 'r', 'a']);
    reveal_strlit("slt");
    assert("slt"@ =~= seq!['s', 'l', 't']);
    reveal_strlit("sltu");
    assert("sltu"@ =~= seq!['s', 'l', 't', 'u']);
    reveal_strlit("addi");
    assert("addi"@ =~= seq!['a', 'd', 'd', 'i']);
    reveal_strlit("slti");
    assert("slti"@ =~= seq!['s', 'l', 't', 'i']);
    reveal_strlit("sltiu");
    assert("sltiu"@ =~= seq!['s', 'l', 't', 'i', 'u']);
    reveal_strlit("andi");
    assert("andi"@ =~= seq!['a', 'n', 'd', 'i']);
    reveal_strlit("ori");
    assert("ori"@ =~= seq!['o', 'r', 'i']);
    reveal_strlit("xori");
    assert("xori"@ =~= seq!['x', 'o', 'r', 'i']);
    reveal_strlit("slli");
    assert("slli"@ =~= seq!['s', 'l', 'l', 'i']);
    reveal_strlit("srli");
    assert("srli"@ =~= seq!['s', 'r', 'l', 'i']);
    reveal_strlit("srai");
    assert("srai"@ =~= seq!['s', 'r', 'a', 'i']);
    reveal_strlit("lb");
    assert("lb"@ =~= seq!['l', 'b']);
    reveal_strlit("lh");
    assert("lh"@ =~= seq!['l', 'h']);
    reveal_strlit("lw");
    assert("lw"@ =~= seq!['l', 'w']);
    reveal_strlit("ld");
    assert("ld"@ =~= seq!['l', 'd']);
    reveal_strlit("lbu");
    assert("lbu"@ =~= seq!['l', 'b', 'u']);
    reveal_strlit("lhu");
    assert("lhu"@ =~= seq!['l', 'h', 'u']);
    reveal_strlit("lwu");
    assert("lwu"@ =~= seq!['l', 'w', 'u']);
    reveal_strlit("sb");
    assert("sb"@ =~= seq!['s', 'b']);
    reveal_strlit("sh");
    assert("sh"@ =~= seq!['s', 'h']);
    reveal_strlit("sw");
    assert("sw"@ =~= seq!['s', 'w']);
    reveal_strlit("sd");
    assert("sd"@ =~= seq!['s', 'd']);
    reveal_strlit("beq");
    assert("beq"@ =~= seq!['b', 'e', 'q']);
    reveal_strlit("bne");
    assert("bne"@ =~= seq!['b', 'n', 'e']);
    reveal_strlit("blt");
    assert("blt"@ =~= seq!['b', 'l', 't']);
    reveal_strlit("bge");
    assert("bge"@ =~= seq!['b', 'g', 'e']);
    reveal_strlit("bltu");
    assert("bltu"@ =~= seq!['b', 'l', 't', 'u']);
    reveal_strlit("bgeu");
    assert("bgeu"@ =~= seq!['b', 'g', 'e', 'u']);
    reveal_strlit("lui");
    assert("lui"@ =~= seq!['l', 'u', 'i']);
    reveal_strlit("auipc");
    assert("auipc"@ =~= seq!['a', 'u', 'i', 'p', 'c']);
    reveal_strlit("jal");
    assert("jal"@ =~= seq!['j', 'a', 'l']);
    reveal_strlit("jalr");
    assert("jalr"@ =~= seq!['j', 'a', 'l', 'r']);
    reveal_strlit("addw");
    assert("addw"@ =~= seq!['a', 'd', 'd', 'w']);
    reveal_strlit("subw");
    assert("subw"@ =~= seq!['s', 'u', 'b', 'w']);
    reveal_strlit("sllw");
    assert("sllw"@ =~= seq!['s', 'l', 'l', 'w']);
    reveal_strlit("srlw");
    assert("srlw"@ =~= seq!['s', 'r', 'l', 'w']);
    reveal_strlit("sraw");
    assert("sraw"@ =~= seq!['s', 'r', 'a', 'w']);
    reveal_strlit("addiw");
    assert("addiw"@ =~= seq!['a', 'd', 'd', 'i', 'w']);
    reveal_strlit("slliw");
    assert("slliw"@ =~= seq!['s', 'l', 'l', 'i', 'w']);
    reveal_strlit("srliw");
    assert("srliw"@ =~= seq!['s', 'r', 'l', 'i', 'w']);
    reveal_strlit("sraiw");
    assert("sraiw"@ =~= seq!['s', 'r', 'a', 'i', 'w']);
    reveal_strlit("li");
    assert("li"@ =~= seq!['l', 'i']);
    reveal_strlit("mv");
    assert("mv"@ =~= seq!['m', 'v']);
    reveal_strlit("ret");
    assert("ret"@ =~= seq!['r', 'e', 't']);
    reveal_strlit("j");
    assert("j"@ =~= seq!['j']);
}

/// The registers and immediate that the pseudo-instructions stand for.
proof fn lemma_known_operands()
    ensures
        register_spec("x0"@) == Ok::<u32, Seq<char>>(0),
        register_spec("x1"@) == Ok::<u32, Seq<char>>(1),
        register_spec("ra"@) == Ok::<u32, Seq<char>>(1),
        immediate_spec("0"@) == Ok::<i64, Seq<char>>(0),
        !immediate_panics("0"@),
        find("x1"@, '(') is None,
{
    reveal_strlit("x0");
    reveal_strlit("x1");
    reveal_strlit("ra");
    reveal_strlit("zero");
    reveal_strlit("0");
    reveal_strlit("0x");
    reveal_strlit("0X");
    reveal_strlit("-0x");
    reveal_strlit("-0X");
    assert("x0"@ =~= seq!['x', '0']);
    assert("x1"@ =~= seq!['x', '1']);
    assert("ra"@ =~= seq!['r', 'a']);
    assert("zero"@ =~= seq!['z', 'e', 'r', 'o']);
    assert("0"@ =~= seq!['0']);
    assert("x0"@.drop_first() =~= seq!['0']);
    assert("x1"@.drop_first() =~= seq!['1']);
    assert(seq!['0'].drop_last() =~= Seq::<char>::empty());
    assert(seq!['1'].drop_last() =~= Seq::<char>::empty());
    assert("0"@.drop_last() =~= Seq::<char>::empty());
    assert("x1"@.drop_last() =~= seq!['x']);
    assert(seq!['x'].drop_last() =~= Seq::<char>::empty());
    assert(find(Seq::<char>::empty(), '(') is None);
    assert(find(seq!['x'], '(') is None);
    assert(crate::text::token("x0"@) == "x0"@);
    assert(crate::text::token("x1"@) == "x1"@);
    assert(crate::number::all_decimal(seq!['0']));
    assert(crate::number::all_decimal(seq!['1']));
    assert(crate::number::decimal_value(Seq::<char>::empty()) == 0);
    assert(seq!['0'].len() == 1 && seq!['0'].last() == '0');
    assert(seq!['1'].len() == 1 && seq!['1'].last() == '1');
    assert(crate::number::decimal_value(seq!['0']) == 0);
    assert(crate::number::decimal_value(seq!['1']) == 1);
    assert(crate::number::digit_value('0', 10) == Some(0int));
    assert(crate::number::digits_value(Seq::<char>::empty(), 10, false) == Ok::<int, crate::number::IntErrorKind>(0));
    assert(crate::number::digits_value(seq!['0'], 10, false) == Ok::<int, crate::number::IntErrorKind>(0));
    assert(crate::number::parse_i64_spec(seq!['0'], 10) == Ok::<i64, crate::number::IntErrorKind>(0));
    assert(crate::number::small_u32(seq!['0']) == Some(0u32));
    assert(crate::number::small_u32(seq!['1']) == Some(1u32));
}

/// `li rd, imm` is `addi rd, x0, imm`: the same word, the same errors, the
/// same failures.
pub proof fn law_li_is_addi(rd: Seq<char>, imm: Seq<char>)
    ensures
        instr_spec("li"@, seq![rd, imm]) == instr_spec("addi"@, seq![rd, "x0"@, imm]),
        instr_panics("li"@, seq![rd, imm]) == instr_panics("addi"@, seq![rd, "x0"@, imm]),
{
    lemma_known_classes();
    lemma_known_operands();
}

/// `mv rd, rs` is `addi rd, rs, 0`.
pub proof fn law_mv_is_addi(rd: Seq<char>, rs: Seq<char>)
    ensures
        instr_spec("mv"@, seq![rd, rs]) == instr_spec("addi"@, seq![rd, rs, "0"@]),
        instr_panics("mv"@, seq![rd, rs]) == instr_panics("addi"@, seq![rd, rs, "0"@]),
{
    lemma_known_classes();
    lemma_known_operands();
}

/// `j offset` is `jal x0, offset`.
pub proof fn law_j_is_jal(offset: Seq<char>)
    ensures
        instr_spec("j"@, seq![offset]) == instr_spec("jal"@, seq!["x0"@, offset]),
        instr_panics("j"@, seq![offset]) == instr_panics("jal"@, seq!["x0"@, offset]),
{
    lemma_known_classes();
    lemma_known_operands();
}

/// `jal offset` links through `ra`: it is `jal ra, offset`.
pub proof fn law_jal_links_ra(offset: Seq<char>)
    ensures
        instr_spec("jal"@, seq![offset]) == instr_spec("jal"@, seq!["ra"@, offset]),
        instr_panics("jal"@, seq![offset]) == instr_panics("jal"@, seq!["ra"@, offset]),
{
    lemma_known_classes();
    lemma_known_operands();
}

/// `ret`, whatever follows it, is `jalr x0, x1`.
pub proof fn law_ret_is_jalr(ops: Seq<Seq<char>>)
    ensures
        instr_spec("ret"@, ops) == instr_spec("jalr"@, seq!["x0"@, "x1"@]),
        !instr_panics("ret"@, ops),
        !instr_panics("jalr"@, seq!["x0"@, "x1"@]),
{
    lemma_known_classes();
    lemma_known_operands();
}

/// `nop`, whatever follows it, is `addi x0, x0, 0`.
pub proof fn law_nop_is_addi(ops: Seq<Seq<char>>)
    ensures
        instr_spec("nop"@, ops) == instr_spec("addi"@, seq!["x0"@, "x0"@, "0"@]),
        !instr_panics("nop"@, ops),
        !instr_panics("addi"@, seq!["x0"@, "x0"@, "0"@]),
{
    lemma_known_classes();
    lemma_known_operands();
}

/// Whitespace around a line does not matter: assembling a line is
/// assembling its trimmed text.
pub proof fn law_surrounding_whitespace(line: Seq<char>)
    ensures
        assemble_spec(line) == assemble_spec(trim(line)),
        assemble_panics(line) == assemble_panics(trim(line)),
{
    crate::text::lemma_trim_idempotent(line);
}

} // verus!
