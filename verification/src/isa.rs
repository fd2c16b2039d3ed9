//! The encoding each mnemonic receives, stated mnemonic by mnemonic with the
//! opcode, `funct3` and `funct7` that the RISC-V base ISA (RV64I) assigns to
//! it, for every operand that reads successfully.
use vstd::prelude::*;
use crate::assembler::{
    assemble_panics, assemble_spec, instr_panics, instr_spec, lemma_known_classes, lowercase,
    mnemonic_of, operand_list, operands_of,
};
use crate::text::trim;
use crate::encode::{b_word, i_word, j_word, r_word, s_word, u_word};
use crate::operand::{immediate_spec, mem_operand_spec, register_spec};
use crate::text::lemma_token_plain;

verus! {

/// A line is assembled as its mnemonic, taken in lower case, on its
/// comma-separated operands: the encodings below are what `assemble` gives
/// for any line that spells that mnemonic with those operands.
pub proof fn law_line_is_mnemonic_on_operands(line: Seq<char>, m: Seq<char>, ops: Seq<Seq<char>>)
    requires
        trim(line).len() > 0,
        lowercase(mnemonic_of(trim(line))) == m,
        operand_list(operands_of(trim(line))) == ops,
    ensures
        assemble_spec(line) == instr_spec(m, ops),
        assemble_panics(line) == instr_panics(m, ops),
{
}

/// The register-register instructions: `op rd, rs1, rs2` is the R-type word
/// with the ISA's `funct7`, `funct3` and opcode (`OP` = 0x33, `OP-32` = 0x3B).
pub proof fn law_register_register_encodings(
    rd: Seq<char>,
    rs1: Seq<char>,
    rs2: Seq<char>,
    d: u32,
    s1: u32,
    s2: u32,
)
    requires
        register_spec(rd) == Ok::<u32, Seq<char>>(d),
        register_spec(rs1) == Ok::<u32, Seq<char>>(s1),
        register_spec(rs2) == Ok::<u32, Seq<char>>(s2),
    ensures
        instr_spec("add"@, seq![rd, rs1, rs2]) == Ok::<u32, Seq<char>>(r_word(0x00, s2, s1, 0x0, d, 0x33)),
        instr_spec("sub"@, seq![rd, rs1, rs2]) == Ok::<u32, Seq<char>>(r_word(0x20, s2, s1, 0x0, d, 0x33)),
        instr_spec("sll"@, seq![rd, rs1, rs2]) == Ok::<u32, Seq<char>>(r_word(0x00, s2, s1, 0x1, d, 0x33)),
        instr_spec("slt"@, seq![rd, rs1, rs2]) == Ok::<u32, Seq<char>>(r_word(0x00, s2, s1, 0x2, d, 0x33)),
        instr_spec("sltu"@, seq![rd, rs1, rs2]) == Ok::<u32, Seq<char>>(r_word(0x00, s2, s1, 0x3, d, 0x33)),
        instr_spec("xor"@, seq![rd, rs1, rs2]) == Ok::<u32, Seq<char>>(r_word(0x00, s2, s1, 0x4, d, 0x33)),
        instr_spec("srl"@, seq![rd, rs1, rs2]) == Ok::<u32, Seq<char>>(r_word(0x00, s2, s1, 0x5, d, 0x33)),
        instr_spec("sra"@, seq![rd, rs1, rs2]) == Ok::<u32, Seq<char>>(r_word(0x20, s2, s1, 0x5, d, 0x33)),
        instr_spec("or"@, seq![rd, rs1, rs2]) == Ok::<u32, Seq<char>>(r_word(0x00, s2, s1, 0x6, d, 0x33)),
        instr_spec("and"@, seq![rd, rs1, rs2]) == Ok::<u32, Seq<char>>(r_word(0x00, s2, s1, 0x7, d, 0x33)),
        instr_spec("addw"@, seq![rd, rs1, rs2]) == Ok::<u32, Seq<char>>(r_word(0x00, s2, s1, 0x0, d, 0x3B)),
        instr_spec("subw"@, seq![rd, rs1, rs2]) == Ok::<u32, Seq<char>>(r_word(0x20, s2, s1, 0x0, d, 0x3B)),
        instr_spec("sllw"@, seq![rd, rs1, rs2]) == Ok::<u32, Seq<char>>(r_word(0x00, s2, s1, 0x1, d, 0x3B)),
        instr_spec("srlw"@, seq![rd, rs1, rs2]) == Ok::<u32, Seq<char>>(r_word(0x00, s2, s1, 0x5, d, 0x3B)),
        instr_spec("sraw"@, seq![rd, rs1, rs2]) == Ok::<u32, Seq<char>>(r_word(0x20, s2, s1, 0x5, d, 0x3B)),
{
    lemma_known_classes();
}

/// The register-immediate instructions: `op rd, rs1, imm` is the I-type word
/// with the ISA's `funct3` and opcode (`OP-IMM` = 0x13, `OP-IMM-32` = 0x1B).
pub proof fn law_register_immediate_encodings(
    rd: Seq<char>,
    rs1: Seq<char>,
    imm: Seq<char>,
    d: u32,
    s1: u32,
    v: i64,
)
    requires
        register_spec(rd) == Ok::<u32, Seq<char>>(d),
        register_spec(rs1) == Ok::<u32, Seq<char>>(s1),
        immediate_spec(imm) == Ok::<i64, Seq<char>>(v),
    ensures
        instr_spec("addi"@, seq![rd, rs1, imm]) == Ok::<u32, Seq<char>>(i_word(v, s1, 0x0, d, 0x13)),
        instr_spec("slti"@, seq![rd, rs1, imm]) == Ok::<u32, Seq<char>>(i_word(v, s1, 0x2, d, 0x13)),
        instr_spec("sltiu"@, seq![rd, rs1, imm]) == Ok::<u32, Seq<char>>(i_word(v, s1, 0x3, d, 0x13)),
        instr_spec("xori"@, seq![rd, rs1, imm]) == Ok::<u32, Seq<char>>(i_word(v, s1, 0x4, d, 0x13)),
        instr_spec("ori"@, seq![rd, rs1, imm]) == Ok::<u32, Seq<char>>(i_word(v, s1, 0x6, d, 0x13)),
        instr_spec("andi"@, seq![rd, rs1, imm]) == Ok::<u32, Seq<char>>(i_word(v, s1, 0x7, d, 0x13)),
        instr_spec("addiw"@, seq![rd, rs1, imm]) == Ok::<u32, Seq<char>>(i_word(v, s1, 0x0, d, 0x1B)),
{
    lemma_known_classes();
}

/// The immediate shifts: the shift amount keeps its low six bits (five for
/// the word forms), and the arithmetic right shifts also set bit 10 of the
/// immediate field.
pub proof fn law_shift_encodings(
    rd: Seq<char>,
    rs1: Seq<char>,
    shamt: Seq<char>,
    d: u32,
    s1: u32,
    v: i64,
)
    requires
        register_spec(rd) == Ok::<u32, Seq<char>>(d),
        register_spec(rs1) == Ok::<u32, Seq<char>>(s1),
        immediate_spec(shamt) == Ok::<i64, Seq<char>>(v),
    ensures
        instr_spec("slli"@, seq![rd, rs1, shamt]) == Ok::<u32, Seq<char>>(i_word(v & 0x3F, s1, 0x1, d, 0x13)),
        instr_spec("srli"@, seq![rd, rs1, shamt]) == Ok::<u32, Seq<char>>(i_word(v & 0x3F, s1, 0x5, d, 0x13)),
        instr_spec("srai"@, seq![rd, rs1, shamt]) == Ok::<u32, Seq<char>>(i_word((v & 0x3F) | 0x400, s1, 0x5, d, 0x13)),
        instr_spec("slliw"@, seq![rd, rs1, shamt]) == Ok::<u32, Seq<char>>(i_word(v & 0x1F, s1, 0x1, d, 0x1B)),
        instr_spec("srliw"@, seq![rd, rs1, shamt]) == Ok::<u32, Seq<char>>(i_word(v & 0x1F, s1, 0x5, d, 0x1B)),
        instr_spec("sraiw"@, seq![rd, rs1, shamt]) == Ok::<u32, Seq<char>>(i_word((v & 0x1F) | 0x400, s1, 0x5, d, 0x1B)),
{
    lemma_known_classes();
}

/// The loads: `op rd, offset(rs1)` is the I-type `LOAD` (0x03) word with the
/// ISA's width code in `funct3`.
pub proof fn law_load_encodings(rd: Seq<char>, mem: Seq<char>, d: u32, offset: i64, base: u32)
    requires
        register_spec(rd) == Ok::<u32, Seq<char>>(d),
        mem_operand_spec(mem) == Ok::<(i64, u32), Seq<char>>((offset, base)),
    ensures
        instr_spec("lb"@, seq![rd, mem]) == Ok::<u32, Seq<char>>(i_word(offset, base, 0x0, d, 0x03)),
        instr_spec("lh"@, seq![rd, mem]) == Ok::<u32, Seq<char>>(i_word(offset, base, 0x1, d, 0x03)),
        instr_spec("lw"@, seq![rd, mem]) == Ok::<u32, Seq<char>>(i_word(offset, base, 0x2, d, 0x03)),
        instr_spec("ld"@, seq![rd, mem]) == Ok::<u32, Seq<char>>(i_word(offset, base, 0x3, d, 0x03)),
        instr_spec("lbu"@, seq![rd, mem]) == Ok::<u32, Seq<char>>(i_word(offset, base, 0x4, d, 0x03)),
        instr_spec("lhu"@, seq![rd, mem]) == Ok::<u32, Seq<char>>(i_word(offset, base, 0x5, d, 0x03)),
        instr_spec("lwu"@, seq![rd, mem]) == Ok::<u32, Seq<char>>(i_word(offset, base, 0x6, d, 0x03)),
{
    lemma_known_classes();
}

/// The stores: `op rs2, offset(rs1)` is the S-type `STORE` (0x23) word with
/// the ISA's width code in `funct3`.
pub proof fn law_store_encodings(rs2: Seq<char>, mem: Seq<char>, s2: u32, offset: i64, base: u32)
    requires
        register_spec(rs2) == Ok::<u32, Seq<char>>(s2),
        mem_operand_spec(mem) == Ok::<(i64, u32), Seq<char>>((offset, base)),
    ensures
        instr_spec("sb"@, seq![rs2, mem]) == Ok::<u32, Seq<char>>(s_word(offset, s2, base, 0x0, 0x23)),
        instr_spec("sh"@, seq![rs2, mem]) == Ok::<u32, Seq<char>>(s_word(offset, s2, base, 0x1, 0x23)),
        instr_spec("sw"@, seq![rs2, mem]) == Ok::<u32, Seq<char>>(s_word(offset, s2, base, 0x2, 0x23)),
        instr_spec("sd"@, seq![rs2, mem]) == Ok::<u32, Seq<char>>(s_word(offset, s2, base, 0x3, 0x23)),
{
    lemma_known_classes();
}

/// The branches: `op rs1, rs2, offset` is the B-type `BRANCH` (0x63) word
/// with the ISA's condition code in `funct3`: `beq` 0, `bne` 1, `blt` 4,
/// `bge` 5, `bltu` 6, `bgeu` 7.
pub proof fn law_branch_encodings(
    rs1: Seq<char>,
    rs2: Seq<char>,
    offset: Seq<char>,
    s1: u32,
    s2: u32,
    v: i64,
)
    requires
        register_spec(rs1) == Ok::<u32, Seq<char>>(s1),
        register_spec(rs2) == Ok::<u32, Seq<char>>(s2),
        immediate_spec(offset) == Ok::<i64, Seq<char>>(v),
    ensures
        instr_spec("beq"@, seq![rs1, rs2, offset]) == Ok::<u32, Seq<char>>(b_word(v, s2, s1, 0x0, 0x63)),
        instr_spec("bne"@, seq![rs1, rs2, offset]) == Ok::<u32, Seq<char>>(b_word(v, s2, s1, 0x1, 0x63)),
        instr_spec("blt"@, seq![rs1, rs2, offset]) == Ok::<u32, Seq<char>>(b_word(v, s2, s1, 0x4, 0x63)),
        instr_spec("bge"@, seq![rs1, rs2, offset]) == Ok::<u32, Seq<char>>(b_word(v, s2, s1, 0x5, 0x63)),
        instr_spec("bltu"@, seq![rs1, rs2, offset]) == Ok::<u32, Seq<char>>(b_word(v, s2, s1, 0x6, 0x63)),
        instr_spec("bgeu"@, seq![rs1, rs2, offset]) == Ok::<u32, Seq<char>>(b_word(v, s2, s1, 0x7, 0x63)),
{
    lemma_known_classes();
}

/// The upper-immediate instructions: `lui` (0x37) and `auipc` (0x17) place
/// the low 20 bits of the given value in bits 31..12 of the word.
pub proof fn law_upper_encodings(rd: Seq<char>, imm: Seq<char>, d: u32, v: i64)
    requires
        register_spec(rd) == Ok::<u32, Seq<char>>(d),
        immediate_spec(imm) == Ok::<i64, Seq<char>>(v),
    ensures
        instr_spec("lui"@, seq![rd, imm]) == Ok::<u32, Seq<char>>(u_word(((v as u32) << 12u32) as i64, d, 0x37)),
        instr_spec("auipc"@, seq![rd, imm]) == Ok::<u32, Seq<char>>(u_word(((v as u32) << 12u32) as i64, d, 0x17)),
{
    lemma_known_classes();
}

/// The jumps and system instructions: `jal` is the J-type `JAL` (0x6F) word,
/// `jalr rd, rs1, offset` the I-type `JALR` (0x67) word with `funct3` 0,
/// and `ecall`/`ebreak` the fixed `SYSTEM` words, whatever follows them.
pub proof fn law_jump_and_system_encodings(
    rd: Seq<char>,
    rs1: Seq<char>,
    offset: Seq<char>,
    d: u32,
    s1: u32,
    v: i64,
    ops: Seq<Seq<char>>,
)
    requires
        register_spec(rd) == Ok::<u32, Seq<char>>(d),
        register_spec(rs1) == Ok::<u32, Seq<char>>(s1),
        immediate_spec(offset) == Ok::<i64, Seq<char>>(v),
    ensures
        instr_spec("jal"@, seq![rd, offset]) == Ok::<u32, Seq<char>>(j_word(v, d, 0x6F)),
        instr_spec("jalr"@, seq![rd, rs1, offset]) == Ok::<u32, Seq<char>>(i_word(v, s1, 0x0, d, 0x67)),
        instr_spec("ecall"@, ops) == Ok::<u32, Seq<char>>(0x0000_0073),
        instr_spec("ebreak"@, ops) == Ok::<u32, Seq<char>>(0x0010_0073),
{
    lemma_known_classes();
}

/// The texts of the ABI register names.
proof fn lemma_abi_literals()
    ensures
        "zero"@ == seq!['z', 'e', 'r', 'o'],
        "ra"@ == seq!['r', 'a'],
        "sp"@ == seq!['s', 'p'],
        "gp"@ == seq!['g', 'p'],
        "tp"@ == seq!['t', 'p'],
        "t0"@ == seq!['t', '0'],
        "t1"@ == seq!['t', '1'],
        "t2"@ == seq!['t', '2'],
        "s0"@ == seq!['s', '0'],
        "fp"@ == seq!['f', 'p'],
        "s1"@ == seq!['s', '1'],
        "a0"@ == seq!['a', '0'],
        "a1"@ == seq!['a', '1'],
        "a2"@ == seq!['a', '2'],
        "a3"@ == seq!['a', '3'],
        "a4"@ == seq!['a', '4'],
        "a5"@ == seq!['a', '5'],
        "a6"@ == seq!['a', '6'],
        "a7"@ == seq!['a', '7'],
        "s2"@ == seq!['s', '2'],
        "s3"@ == seq!['s', '3'],
        "s4"@ == seq!['s', '4'],
        "s5"@ == seq!['s', '5'],
        "s6"@ == seq!['s', '6'],
        "s7"@ == seq!['s', '7'],
        "s8"@ == seq!['s', '8'],
        "s9"@ == seq!['s', '9'],
        "s10"@ == seq!['s', '1', '0'],
        "s11"@ == seq!['s', '1', '1'],
        "t3"@ == seq!['t', '3'],
        "t4"@ == seq!['t', '4'],
        "t5"@ == seq!['t', '5'],
        "t6"@ == seq!['t', '6'],
{
    reveal_strlit("zero");
    assert("zero"@ =~= seq!['z', 'e', 'r', 'o']);
    reveal_strlit("ra");
    assert("ra"@ =~= seq!['r', 'a']);
    reveal_strlit("sp");
    assert("sp"@ =~= seq!['s', 'p']);
    reveal_strlit("gp");
    assert("gp"@ =~= seq!['g', 'p']);
    reveal_strlit("tp");
    assert("tp"@ =~= seq!['t', 'p']);
    reveal_strlit("t0");
    assert("t0"@ =~= seq!['t', '0']);
    reveal_strlit("t1");
    assert("t1"@ =~= seq!['t', '1']);
    reveal_strlit("t2");
    assert("t2"@ =~= seq!['t', '2']);
    reveal_strlit("s0");
    assert("s0"@ =~= seq!['s', '0']);
    reveal_strlit("fp");
    assert("fp"@ =~= seq!['f', 'p']);
    reveal_strlit("s1");
    assert("s1"@ =~= seq!['s', '1']);
    reveal_strlit("a0");
    assert("a0"@ =~= seq!['a', '0']);
    reveal_strlit("a1");
    assert("a1"@ =~= seq!['a', '1']);
    reveal_strlit("a2");
    assert("a2"@ =~= seq!['a', '2']);
    reveal_strlit("a3");
    assert("a3"@ =~= seq!['a', '3']);
    reveal_strlit("a4");
    assert("a4"@ =~= seq!['a', '4']);
    reveal_strlit("a5");
    assert("a5"@ =~= seq!['a', '5']);
    reveal_strlit("a6");
    assert("a6"@ =~= seq!['a', '6']);
    reveal_strlit("a7");
    assert("a7"@ =~= seq!['a', '7']);
    reveal_strlit("s2");
    assert("s2"@ =~= seq!['s', '2']);
    reveal_strlit("s3");
    assert("s3"@ =~= seq!['s', '3']);
    reveal_strlit("s4");
    assert("s4"@ =~= seq!['s', '4']);
    reveal_strlit("s5");
    assert("s5"@ =~= seq!['s', '5']);
    reveal_strlit("s6");
    assert("s6"@ =~= seq!['s', '6']);
    reveal_strlit("s7");
    assert("s7"@ =~= seq!['s', '7']);
    reveal_strlit("s8");
    assert("s8"@ =~= seq!['s', '8']);
    reveal_strlit("s9");
    assert("s9"@ =~= seq!['s', '9']);
    reveal_strlit("s10");
    assert("s10"@ =~= seq!['s', '1', '0']);
    reveal_strlit("s11");
    assert("s11"@ =~= seq!['s', '1', '1']);
    reveal_strlit("t3");
    assert("t3"@ =~= seq!['t', '3']);
    reveal_strlit("t4");
    assert("t4"@ =~= seq!['t', '4']);
    reveal_strlit("t5");
    assert("t5"@ =~= seq!['t', '5']);
    reveal_strlit("t6");
    assert("t6"@ =~= seq!['t', '6']);
}

proof fn lemma_abi_names_0()
    ensures
        register_spec("zero"@) == Ok::<u32, Seq<char>>(0),
        register_spec("ra"@) == Ok::<u32, Seq<char>>(1),
        register_spec("sp"@) == Ok::<u32, Seq<char>>(2),
        register_spec("gp"@) == Ok::<u32, Seq<char>>(3),
        register_spec("tp"@) == Ok::<u32, Seq<char>>(4),
        register_spec("t0"@) == Ok::<u32, Seq<char>>(5),
        register_spec("t1"@) == Ok::<u32, Seq<char>>(6),
        register_spec("t2"@) == Ok::<u32, Seq<char>>(7),
        register_spec("s0"@) == Ok::<u32, Seq<char>>(8),
{
    lemma_abi_literals();
    lemma_token_plain("zero"@);
    lemma_token_plain("ra"@);
    lemma_token_plain("sp"@);
    lemma_token_plain("gp"@);
    lemma_token_plain("tp"@);
    lemma_token_plain("t0"@);
    lemma_token_plain("t1"@);
    lemma_token_plain("t2"@);
    lemma_token_plain("s0"@);
}

proof fn lemma_abi_names_1()
    ensures
        register_spec("fp"@) == Ok::<u32, Seq<char>>(8),
        register_spec("s1"@) == Ok::<u32, Seq<char>>(9),
        register_spec("a0"@) == Ok::<u32, Seq<char>>(10),
        register_spec("a1"@) == Ok::<u32, Seq<char>>(11),
        register_spec("a2"@) == Ok::<u32, Seq<char>>(12),
        register_spec("a3"@) == Ok::<u32, Seq<char>>(13),
        register_spec("a4"@) == Ok::<u32, Seq<char>>(14),
        register_spec("a5"@) == Ok::<u32, Seq<char>>(15),
        register_spec("a6"@) == Ok::<u32, Seq<char>>(16),
{
    lemma_abi_literals();
    lemma_token_plain("fp"@);
    lemma_token_plain("s1"@);
    lemma_token_plain("a0"@);
    lemma_token_plain("a1"@);
    lemma_token_plain("a2"@);
    lemma_token_plain("a3"@);
    lemma_token_plain("a4"@);
    lemma_token_plain("a5"@);
    lemma_token_plain("a6"@);
}

proof fn lemma_abi_names_2()
    ensures
        register_spec("a7"@) == Ok::<u32, Seq<char>>(17),
        register_spec("s2"@) == Ok::<u32, Seq<char>>(18),
        register_spec("s3"@) == Ok::<u32, Seq<char>>(19),
        register_spec("s4"@) == Ok::<u32, Seq<char>>(20),
        register_spec("s5"@) == Ok::<u32, Seq<char>>(21),
        register_spec("s6"@) == Ok::<u32, Seq<char>>(22),
        register_spec("s7"@) == Ok::<u32, Seq<char>>(23),
        register_spec("s8"@) == Ok::<u32, Seq<char>>(24),
        register_spec("s9"@) == Ok::<u32, Seq<char>>(25),
{
    lemma_abi_literals();
    lemma_token_plain("a7"@);
    lemma_token_plain("s2"@);
    lemma_token_plain("s3"@);
    lemma_token_plain("s4"@);
    lemma_token_plain("s5"@);
    lemma_token_plain("s6"@);
    lemma_token_plain("s7"@);
    lemma_token_plain("s8"@);
    lemma_token_plain("s9"@);
}

proof fn lemma_abi_names_3()
    ensures
        register_spec("s10"@) == Ok::<u32, Seq<char>>(26),
        register_spec("s11"@) == Ok::<u32, Seq<char>>(27),
        register_spec("t3"@) == Ok::<u32, Seq<char>>(28),
        register_spec("t4"@) == Ok::<u32, Seq<char>>(29),
        register_spec("t5"@) == Ok::<u32, Seq<char>>(30),
        register_spec("t6"@) == Ok::<u32, Seq<char>>(31),
{
    lemma_abi_literals();
    lemma_token_plain("s10"@);
    lemma_token_plain("s11"@);
    lemma_token_plain("t3"@);
    lemma_token_plain("t4"@);
    lemma_token_plain("t5"@);
    lemma_token_plain("t6"@);
}

/// The ABI register names denote the registers the RISC-V calling convention
/// gives them: `zero` x0, `ra` x1, `sp` x2, `gp` x3, `tp` x4, `t0`-`t2`
/// x5-x7, `s0`/`fp` x8, `s1` x9, `a0`-`a7` x10-x17, `s2`-`s11` x18-x27 and
/// `t3`-`t6` x28-x31.
pub proof fn law_abi_register_names()
    ensures
        register_spec("zero"@) == Ok::<u32, Seq<char>>(0),
        register_spec("ra"@) == Ok::<u32, Seq<char>>(1),
        register_spec("sp"@) == Ok::<u32, Seq<char>>(2),
        register_spec("gp"@) == Ok::<u32, Seq<char>>(3),
        register_spec("tp"@) == Ok::<u32, Seq<char>>(4),
        register_spec("t0"@) == Ok::<u32, Seq<char>>(5),
        register_spec("t1"@) == Ok::<u32, Seq<char>>(6),
        register_spec("t2"@) == Ok::<u32, Seq<char>>(7),
        register_spec("s0"@) == Ok::<u32, Seq<char>>(8),
        register_spec("fp"@) == Ok::<u32, Seq<char>>(8),
        register_spec("s1"@) == Ok::<u32, Seq<char>>(9),
        register_spec("a0"@) == Ok::<u32, Seq<char>>(10),
        register_spec("a1"@) == Ok::<u32, Seq<char>>(11),
        register_spec("a2"@) == Ok::<u32, Seq<char>>(12),
        register_spec("a3"@) == Ok::<u32, Seq<char>>(13),
        register_spec("a4"@) == Ok::<u32, Seq<char>>(14),
        register_spec("a5"@) == Ok::<u32, Seq<char>>(15),
        register_spec("a6"@) == Ok::<u32, Seq<char>>(16),
        register_spec("a7"@) == Ok::<u32, Seq<char>>(17),
        register_spec("s2"@) == Ok::<u32, Seq<char>>(18),
        register_spec("s3"@) == Ok::<u32, Seq<char>>(19),
        register_spec("s4"@) == Ok::<u32, Seq<char>>(20),
        register_spec("s5"@) == Ok::<u32, Seq<char>>(21),
        register_spec("s6"@) == Ok::<u32, Seq<char>>(22),
        register_spec("s7"@) == Ok::<u32, Seq<char>>(23),
        register_spec("s8"@) == Ok::<u32, Seq<char>>(24),
        register_spec("s9"@) == Ok::<u32, Seq<char>>(25),
        register_spec("s10"@) == Ok::<u32, Seq<char>>(26),
        register_spec("s11"@) == Ok::<u32, Seq<char>>(27),
        register_spec("t3"@) == Ok::<u32, Seq<char>>(28),
        register_spec("t4"@) == Ok::<u32, Seq<char>>(29),
        register_spec("t5"@) == Ok::<u32, Seq<char>>(30),
        register_spec("t6"@) == Ok::<u32, Seq<char>>(31),
{
    lemma_abi_names_0();
    lemma_abi_names_1();
    lemma_abi_names_2();
    lemma_abi_names_3();
}

} // verus!
