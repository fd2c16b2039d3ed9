//! The six RISC-V instruction formats: placing register numbers, function
//! codes and immediates into a 32-bit instruction word.
use vstd::prelude::*;

verus! {

/// R-type: `funct7 | rs2 | rs1 | funct3 | rd | opcode`.
pub open spec fn r_word(funct7: u32, rs2: u32, rs1: u32, funct3: u32, rd: u32, opcode: u32) -> u32 {
    (funct7 << 25) | (rs2 << 20) | (rs1 << 15) | (funct3 << 12) | (rd << 7) | opcode
}

/// I-type: `imm[11:0] | rs1 | funct3 | rd | opcode`.
pub open spec fn i_word(imm: i64, rs1: u32, funct3: u32, rd: u32, opcode: u32) -> u32 {
    let imm = (imm as u32) & 0xFFF;
    (imm << 20) | (rs1 << 15) | (funct3 << 12) | (rd << 7) | opcode
}

/// S-type: `imm[11:5] | rs2 | rs1 | funct3 | imm[4:0] | opcode`.
pub open spec fn s_word(imm: i64, rs2: u32, rs1: u32, funct3: u32, opcode: u32) -> u32 {
    let imm = (imm as u32) & 0xFFF;
    (((imm >> 5) & 0x7F) << 25) | (rs2 << 20) | (rs1 << 15) | (funct3 << 12) | ((imm & 0x1F)
        << 7) | opcode
}

/// B-type: `imm[12] | imm[10:5] | rs2 | rs1 | funct3 | imm[4:1] | imm[11] | opcode`.
pub open spec fn b_word(imm: i64, rs2: u32, rs1: u32, funct3: u32, opcode: u32) -> u32 {
    let imm = (imm as u32) & 0x1FFF;
    (((imm >> 12) & 1) << 31) | (((imm >> 5) & 0x3F) << 25) | (rs2 << 20) | (rs1 << 15) | (
    funct3 << 12) | (((imm >> 1) & 0xF) << 8) | (((imm >> 11) & 1) << 7) | opcode
}

/// U-type: `imm[31:12] | rd | opcode`.
pub open spec fn u_word(imm: i64, rd: u32, opcode: u32) -> u32 {
    ((imm as u32) & 0xFFFFF000) | (rd << 7) | opcode
}

/// J-type: `imm[20] | imm[10:1] | imm[11] | imm[19:12] | rd | opcode`.
pub open spec fn j_word(imm: i64, rd: u32, opcode: u32) -> u32 {
    let imm = (imm as u32) & 0x1FFFFF;
    (((imm >> 20) & 1) << 31) | (((imm >> 1) & 0x3FF) << 21) | (((imm >> 11) & 1) << 20) | (((
    imm >> 12) & 0xFF) << 12) | (rd << 7) | opcode
}

pub fn encode_r(funct7: u32, rs2: u32, rs1: u32, funct3: u32, rd: u32, opcode: u32) -> (w: u32)
    ensures
        w == r_word(funct7, rs2, rs1, funct3, rd, opcode),
{
    (funct7 << 25) | (rs2 << 20) | (rs1 << 15) | (funct3 << 12) | (rd << 7) | opcode
}

pub fn encode_i(imm: i64, rs1: u32, funct3: u32, rd: u32, opcode: u32) -> (w: u32)
    ensures
        w == i_word(imm, rs1, funct3, rd, opcode),
{
    let imm = (imm as u32) & 0xFFF;
    (imm << 20) | (rs1 << 15) | (funct3 << 12) | (rd << 7) | opcode
}

pub fn encode_s(imm: i64, rs2: u32, rs1: u32, funct3: u32, opcode: u32) -> (w: u32)
    ensures
        w == s_word(imm, rs2, rs1, funct3, opcode),
{
    let imm = (imm as u32) & 0xFFF;
    let imm_11_5 = (imm >> 5) & 0x7F;
    let imm_4_0 = imm & 0x1F;
    (imm_11_5 << 25) | (rs2 << 20) | (rs1 << 15) | (funct3 << 12) | (imm_4_0 << 7) | opcode
}

pub fn encode_b(imm: i64, rs2: u32, rs1: u32, funct3: u32, opcode: u32) -> (w: u32)
    ensures
        w == b_word(imm, rs2, rs1, funct3, opcode),
{
    let imm = (imm as u32) & 0x1FFF;
    let bit12 = (imm >> 12) & 1;
    let bits10_5 = (imm >> 5) & 0x3F;
    let bits4_1 = (imm >> 1) & 0xF;
    let bit11 = (imm >> 11) & 1;
    (bit12 << 31) | (bits10_5 << 25) | (rs2 << 20) | (rs1 << 15) | (funct3 << 12) | (bits4_1
        << 8) | (bit11 << 7) | opcode
}

pub fn encode_u(imm: i64, rd: u32, opcode: u32) -> (w: u32)
    ensures
        w == u_word(imm, rd, opcode),
{
    let imm = (imm as u32) & 0xFFFFF000;
    imm | (rd << 7) | opcode
}

pub fn encode_j(imm: i64, rd: u32, opcode: u32) -> (w: u32)
    ensures
        w == j_word(imm, rd, opcode),
{
    let imm = (imm as u32) & 0x1FFFFF;
    let bit20 = (imm >> 20) & 1;
    let bits10_1 = (imm >> 1) & 0x3FF;
    let bit11 = (imm >> 11) & 1;
    let bits19_12 = (imm >> 12) & 0xFF;
    (bit20 << 31) | (bits10_1 << 21) | (bit11 << 20) | (bits19_12 << 12) | (rd << 7) | opcode
}

/// The fields of an R-type word read back as the values placed in it.
pub proof fn law_r_word_fields(funct7: u32, rs2: u32, rs1: u32, funct3: u32, rd: u32, opcode: u32)
    requires
        funct7 < 128,
        rs2 < 32,
        rs1 < 32,
        funct3 < 8,
        rd < 32,
        opcode < 128,
    ensures
        r_word(funct7, rs2, rs1, funct3, rd, opcode) >> 25u32 == funct7,
        (r_word(funct7, rs2, rs1, funct3, rd, opcode) >> 20u32) & 31 == rs2,
        (r_word(funct7, rs2, rs1, funct3, rd, opcode) >> 15u32) & 31 == rs1,
        (r_word(funct7, rs2, rs1, funct3, rd, opcode) >> 12u32) & 7 == funct3,
        (r_word(funct7, rs2, rs1, funct3, rd, opcode) >> 7u32) & 31 == rd,
        r_word(funct7, rs2, rs1, funct3, rd, opcode) & 127 == opcode,
{
    let w = r_word(funct7, rs2, rs1, funct3, rd, opcode);
    assert(w == (funct7 << 25) | (rs2 << 20) | (rs1 << 15) | (funct3 << 12) | (rd << 7) | opcode);
    assert({
        let w = (funct7 << 25) | (rs2 << 20) | (rs1 << 15) | (funct3 << 12) | (rd << 7) | opcode;
        &&& w >> 25u32 == funct7
        &&& (w >> 20u32) & 31 == rs2
        &&& (w >> 15u32) & 31 == rs1
        &&& (w >> 12u32) & 7 == funct3
        &&& (w >> 7u32) & 31 == rd
        &&& w & 127 == opcode
    }) by (bit_vector)
        requires
            funct7 < 128,
            rs2 < 32,
            rs1 < 32,
            funct3 < 8,
            rd < 32,
            opcode < 128,
    ;
}

/// The immediate field of an I-type word holds the low 12 bits of the
/// immediate; the other fields read back as placed.
pub proof fn law_i_word_fields(imm: i64, rs1: u32, funct3: u32, rd: u32, opcode: u32)
    requires
        rs1 < 32,
        funct3 < 8,
        rd < 32,
        opcode < 128,
    ensures
        i_word(imm, rs1, funct3, rd, opcode) >> 20u32 == (imm as u32) & 0xFFF,
        (i_word(imm, rs1, funct3, rd, opcode) >> 15u32) & 31 == rs1,
        (i_word(imm, rs1, funct3, rd, opcode) >> 12u32) & 7 == funct3,
        (i_word(imm, rs1, funct3, rd, opcode) >> 7u32) & 31 == rd,
        i_word(imm, rs1, funct3, rd, opcode) & 127 == opcode,
{
    let b = imm as u32;
    assert(i_word(imm, rs1, funct3, rd, opcode) == ((b & 0xFFF) << 20) | (rs1 << 15) | (funct3
        << 12) | (rd << 7) | opcode);
    assert({
        let w = ((b & 0xFFF) << 20) | (rs1 << 15) | (funct3 << 12) | (rd << 7) | opcode;
        &&& w >> 20u32 == b & 0xFFF
        &&& (w >> 15u32) & 31 == rs1
        &&& (w >> 12u32) & 7 == funct3
        &&& (w >> 7u32) & 31 == rd
        &&& w & 127 == opcode
    }) by (bit_vector)
        requires
            rs1 < 32,
            funct3 < 8,
            rd < 32,
            opcode < 128,
    ;
}

/// The two immediate fields of an S-type word rejoin into the low 12 bits of
/// the immediate.
pub proof fn law_s_word_fields(imm: i64, rs2: u32, rs1: u32, funct3: u32, opcode: u32)
    requires
        rs2 < 32,
        rs1 < 32,
        funct3 < 8,
        opcode < 128,
    ensures
        ((s_word(imm, rs2, rs1, funct3, opcode) >> 25u32) << 5u32) | ((s_word(
            imm,
            rs2,
            rs1,
            funct3,
            opcode,
        ) >> 7u32) & 31) == (imm as u32) & 0xFFF,
        (s_word(imm, rs2, rs1, funct3, opcode) >> 20u32) & 31 == rs2,
        (s_word(imm, rs2, rs1, funct3, opcode) >> 15u32) & 31 == rs1,
        (s_word(imm, rs2, rs1, funct3, opcode) >> 12u32) & 7 == funct3,
        s_word(imm, rs2, rs1, funct3, opcode) & 127 == opcode,
{
    let b = imm as u32;
    let i = b & 0xFFF;
    assert(s_word(imm, rs2, rs1, funct3, opcode) == (((i >> 5) & 0x7F) << 25) | (rs2 << 20) | (rs1
        << 15) | (funct3 << 12) | ((i & 0x1F) << 7) | opcode);
    assert({
        let i = b & 0xFFF;
        let w = (((i >> 5) & 0x7F) << 25) | (rs2 << 20) | (rs1 << 15) | (funct3 << 12) | ((i
            & 0x1F) << 7) | opcode;
        &&& ((w >> 25u32) << 5u32) | ((w >> 7u32) & 31) == i
        &&& (w >> 20u32) & 31 == rs2
        &&& (w >> 15u32) & 31 == rs1
        &&& (w >> 12u32) & 7 == funct3
        &&& w & 127 == opcode
    }) by (bit_vector)
        requires
            rs2 < 32,
            rs1 < 32,
            funct3 < 8,
            opcode < 128,
    ;
}

/// The scattered immediate bits of a B-type word rejoin into bits 12..1 of
/// the branch offset.
pub proof fn law_b_word_fields(imm: i64, rs2: u32, rs1: u32, funct3: u32, opcode: u32)
    requires
        rs2 < 32,
        rs1 < 32,
        funct3 < 8,
        opcode < 128,
    ensures
        (((b_word(imm, rs2, rs1, funct3, opcode) >> 31u32) & 1) << 12u32) | (((b_word(
            imm,
            rs2,
            rs1,
            funct3,
            opcode,
        ) >> 7u32) & 1) << 11u32) | (((b_word(imm, rs2, rs1, funct3, opcode) >> 25u32) & 0x3F)
            << 5u32) | (((b_word(imm, rs2, rs1, funct3, opcode) >> 8u32) & 0xF) << 1u32) == (imm
            as u32) & 0x1FFE,
        (b_word(imm, rs2, rs1, funct3, opcode) >> 20u32) & 31 == rs2,
        (b_word(imm, rs2, rs1, funct3, opcode) >> 15u32) & 31 == rs1,
        (b_word(imm, rs2, rs1, funct3, opcode) >> 12u32) & 7 == funct3,
        b_word(imm, rs2, rs1, funct3, opcode) & 127 == opcode,
{
    let b = imm as u32;
    let i = b & 0x1FFF;
    assert(b_word(imm, rs2, rs1, funct3, opcode) == (((i >> 12) & 1) << 31) | (((i >> 5) & 0x3F)
        << 25) | (rs2 << 20) | (rs1 << 15) | (funct3 << 12) | (((i >> 1) & 0xF) << 8) | (((i >> 11)
        & 1) << 7) | opcode);
    assert({
        let i = b & 0x1FFF;
        let w = (((i >> 12) & 1) << 31) | (((i >> 5) & 0x3F) << 25) | (rs2 << 20) | (rs1 << 15) | (
        funct3 << 12) | (((i >> 1) & 0xF) << 8) | (((i >> 11) & 1) << 7) | opcode;
        &&& (((w >> 31u32) & 1) << 12u32) | (((w >> 7u32) & 1) << 11u32) | (((w >> 25u32) & 0x3F)
            << 5u32) | (((w >> 8u32) & 0xF) << 1u32) == b & 0x1FFE
        &&& (w >> 20u32) & 31 == rs2
        &&& (w >> 15u32) & 31 == rs1
        &&& (w >> 12u32) & 7 == funct3
        &&& w & 127 == opcode
    }) by (bit_vector)
        requires
            rs2 < 32,
            rs1 < 32,
            funct3 < 8,
            opcode < 128,
    ;
}

/// A U-type word carries bits 31..12 of the immediate unchanged.
pub proof fn law_u_word_fields(imm: i64, rd: u32, opcode: u32)
    requires
        rd < 32,
        opcode < 128,
    ensures
        u_word(imm, rd, opcode) & 0xFFFFF000 == (imm as u32) & 0xFFFFF000,
        (u_word(imm, rd, opcode) >> 7u32) & 31 == rd,
        u_word(imm, rd, opcode) & 127 == opcode,
{
    let b = imm as u32;
    assert(u_word(imm, rd, opcode) == (b & 0xFFFFF000) | (rd << 7) | opcode);
    assert({
        let w = (b & 0xFFFFF000) | (rd << 7) | opcode;
        &&& w & 0xFFFFF000 == b & 0xFFFFF000
        &&& (w >> 7u32) & 31 == rd
        &&& w & 127 == opcode
    }) by (bit_vector)
        requires
            rd < 32,
            opcode < 128,
    ;
}

/// The scattered immediate bits of a J-type word rejoin into bits 20..1 of
/// the jump offset.
pub proof fn law_j_word_fields(imm: i64, rd: u32, opcode: u32)
    requires
        rd < 32,
        opcode < 128,
    ensures
        (((j_word(imm, rd, opcode) >> 31u32) & 1) << 20u32) | (((j_word(imm, rd, opcode) >> 12u32)
            & 0xFF) << 12u32) | (((j_word(imm, rd, opcode) >> 20u32) & 1) << 11u32) | (((j_word(
            imm,
            rd,
            opcode,
        ) >> 21u32) & 0x3FF) << 1u32) == (imm as u32) & 0x1FFFFE,
        (j_word(imm, rd, opcode) >> 7u32) & 31 == rd,
        j_word(imm, rd, opcode) & 127 == opcode,
{
    let b = imm as u32;
    let i = b & 0x1FFFFF;
    assert(j_word(imm, rd, opcode) == (((i >> 20) & 1) << 31) | (((i >> 1) & 0x3FF) << 21) | (((i
        >> 11) & 1) << 20) | (((i >> 12) & 0xFF) << 12) | (rd << 7) | opcode);
    assert({
        let i = b & 0x1FFFFF;
        let w = (((i >> 20) & 1) << 31) | (((i >> 1) & 0x3FF) << 21) | (((i >> 11) & 1) << 20) | (((
        i >> 12) & 0xFF) << 12) | (rd << 7) | opcode;
        &&& (((w >> 31u32) & 1) << 20u32) | (((w >> 12u32) & 0xFF) << 12u32) | (((w >> 20u32) & 1)
            << 11u32) | (((w >> 21u32) & 0x3FF) << 1u32) == b & 0x1FFFFE
        &&& (w >> 7u32) & 31 == rd
        &&& w & 127 == opcode
    }) by (bit_vector)
        requires
            rd < 32,
            opcode < 128,
    ;
}

/// Whatever the other fields hold, the low seven bits of every format's word
/// are those of its opcode.
pub proof fn lemma_opcode_bits(f: u32, a: u32, b: u32, c: u32, d: u32, opcode: u32, imm: i64)
    ensures
        r_word(f, a, b, c, d, opcode) & 127 == opcode & 127,
        i_word(imm, a, b, c, opcode) & 127 == opcode & 127,
        s_word(imm, a, b, c, opcode) & 127 == opcode & 127,
        b_word(imm, a, b, c, opcode) & 127 == opcode & 127,
        u_word(imm, a, opcode) & 127 == opcode & 127,
        j_word(imm, a, opcode) & 127 == opcode & 127,
{
    let x = imm as u32;
    assert(((f << 25) | (a << 20) | (b << 15) | (c << 12) | (d << 7) | opcode) & 127 == opcode
        & 127) by (bit_vector);
    assert((((x & 0xFFF) << 20) | (a << 15) | (b << 12) | (c << 7) | opcode) & 127 == opcode & 127)
        by (bit_vector);
    assert(((((x & 0xFFF) >> 5) & 0x7F) << 25 | (a << 20) | (b << 15) | (c << 12) | (((x & 0xFFF)
        & 0x1F) << 7) | opcode) & 127 == opcode & 127) by (bit_vector);
    assert(((((x & 0x1FFF) >> 12) & 1) << 31 | (((x & 0x1FFF) >> 5) & 0x3F) << 25 | (a << 20) | (b
        << 15) | (c << 12) | (((x & 0x1FFF) >> 1) & 0xF) << 8 | (((x & 0x1FFF) >> 11) & 1) << 7
        | opcode) & 127 == opcode & 127) by (bit_vector);
    assert(((x & 0xFFFFF000) | (a << 7) | opcode) & 127 == opcode & 127) by (bit_vector);
    assert(((((x & 0x1FFFFF) >> 20) & 1) << 31 | (((x & 0x1FFFFF) >> 1) & 0x3FF) << 21 | (((x
        & 0x1FFFFF) >> 11) & 1) << 20 | (((x & 0x1FFFFF) >> 12) & 0xFF) << 12 | (a << 7) | opcode)
        & 127 == opcode & 127) by (bit_vector);
}

} // verus!
