use rvemu_cli::assembler::{assemble, assemble_parts, try_assemble};
use rvemu_cli::encode::{encode_b, encode_i, encode_j, encode_r, encode_s, encode_u};

fn word(line: &str) -> u32 {
    assemble(line).unwrap()
}

fn word_err(line: &str) -> String {
    assemble(line).unwrap_err()
}

#[test]
fn r_type_function_codes() {
    assert_eq!(word("sub x5, x6, x7"), 0x407302b3);
    assert_eq!(word("sra a0, a1, a2"), 0x40c5d533);
    assert_eq!(word("subw a0, a1, a2"), 0x40c5853b);
}

#[test]
fn shift_immediates_are_masked_and_arithmetic_shifts_set_bit_ten() {
    assert_eq!(word("srai a0, a1, 3"), 0x4035d513);
    assert_eq!(word("slli t0, t1, 63"), 0x03f31293);
    assert_eq!(word("slli t0, t1, 127"), 0x03f31293);
    assert_eq!(word("sraiw a0, a0, 31"), 0x41f5551b);
    assert_eq!(word("addiw a0, a0, 1"), 0x0015051b);
}

#[test]
fn negative_immediates_and_offsets() {
    assert_eq!(word("addi sp, sp, -16"), 0xff010113);
    assert_eq!(word("sb t1, -64(sp)"), 0xfc610023);
    assert_eq!(word("bne a0, zero, -8"), 0xfe051ce3);
    assert_eq!(word("j -4"), 0xffdff06f);
}

#[test]
fn loads_stores_and_jumps() {
    assert_eq!(word("sd ra, 8(sp)"), 0x00113423);
    assert_eq!(word("ld a0, 16(sp)"), 0x01013503);
    assert_eq!(word("lbu a0, 0x10(sp)"), 0x01014503);
    assert_eq!(word("jal ra, 2048"), 0x001000ef);
    assert_eq!(word("jalr ra, 4(t0)"), 0x004280e7);
    assert_eq!(word("jalr ra, t0"), 0x000280e7);
    assert_eq!(word("jalr x1, x5, -4"), 0xffc280e7);
    assert_eq!(word("auipc a0, 0x1"), 0x00001517);
    assert_eq!(word("ebreak"), 0x00100073);
}

#[test]
fn pseudo_instructions_match_their_expansions() {
    assert_eq!(word("li a0, 42"), word("addi a0, x0, 42"));
    assert_eq!(word("mv a0, a1"), word("addi a0, a1, 0"));
    assert_eq!(word("mv a0, a1"), 0x00058513);
    assert_eq!(word("j -4"), word("jal x0, -4"));
    assert_eq!(word("jal 16"), word("jal ra, 16"));
    assert_eq!(word("jal 16"), 0x010000ef);
    assert_eq!(word("ret"), word("jalr x0, x1"));
    assert_eq!(word("nop"), word("addi x0, x0, 0"));
    assert_eq!(word_err("li a0"), "li requires 2 operands");
}

#[test]
fn assembled_words_are_full_instructions() {
    for line in [
        "nop", "ecall", "ebreak", "add x1, x2, x3", "addi a0, x0, 10", "lw x5, 8(x2)",
        "sw x5, 8(x2)", "beq x1, x2, 8", "lui x1, 0x12345", "auipc a0, 1", "jal 8",
        "jalr ra, t0", "addw a0, a0, a1", "slliw a0, a0, 3", "li a0, 1", "mv a0, a1",
        "ret", "j 8",
    ] {
        let w = word(line);
        assert_eq!(w & 3, 3, "{}", line);
    }
}

#[test]
fn surrounding_whitespace_and_mnemonic_case() {
    assert_eq!(word("  \taddi a0, x0, 10 \n"), 0x00a00513);
    assert_eq!(word("ADDI a0, x0, 10"), 0x00a00513);
    assert_eq!(word("Add x1,x2,x3"), 0x003100b3);
    assert_eq!(word_err("ADDI A0, x0, 10"), "unknown register: A0");
}

#[test]
fn assembly_errors() {
    assert_eq!(word_err(""), "empty instruction");
    assert_eq!(word_err("   "), "empty instruction");
    assert_eq!(word_err("foo x1"), "unsupported instruction: foo");
    assert_eq!(word_err("FOO"), "unsupported instruction: foo");
    assert_eq!(word_err("add x1, x2"), "add requires 3 operands");
    assert_eq!(word_err("add x1, x2,"), "unknown register: ");
    assert_eq!(word_err("lw x1"), "lw requires 2 operands (rd, offset(rs1))");
    assert_eq!(word_err("sw x1"), "sw requires 2 operands (rs2, offset(rs1))");
    assert_eq!(word_err("lui x1"), "lui requires 2 operands");
    assert_eq!(word_err("jal a, b, c"), "jal requires 1 or 2 operands");
    assert_eq!(word_err("jalr"), "jalr requires 2 or 3 operands");
    assert_eq!(word_err("mv a0"), "mv requires 2 operands");
    assert_eq!(word_err("j"), "j requires 1 operand");
    assert_eq!(word_err("add x1, x2, x99"), "unknown register: x99");
    assert_eq!(word_err("addi x1, x2, ten"), "bad immediate 'ten': invalid digit found in string");
    assert_eq!(word_err("lw x1, x2"), "expected offset(reg) syntax, got 'x2'");
}

#[test]
fn run_time_failures_are_reported_as_none() {
    assert!(try_assemble("addi a0, a0, -0x-8000000000000000").is_none());
    assert!(try_assemble("lw a0, -0x-8000000000000000(x2)").is_none());
    assert!(try_assemble("jalr ra, -0X-8000000000000000(t0)").is_none());
    assert!(try_assemble("j -0x-8000000000000000").is_none());
    assert_eq!(
        try_assemble("lw a0, 8)x2(").unwrap().unwrap_err(),
        "bad immediate '8)x2': invalid digit found in string"
    );
    assert_eq!(
        try_assemble("addi x99, a0, -0x-8000000000000000").unwrap().unwrap_err(),
        "unknown register: x99"
    );
    assert_eq!(try_assemble("addi a0, a0, 5"), Some(Ok(0x00550513)));
}

#[test]
fn assemble_parts_takes_lowercase_mnemonic() {
    assert_eq!(assemble_parts("addi", " a0, x0, 10"), Ok(0x00a00513));
    assert_eq!(assemble_parts("ADDI", "a0, x0, 10"), Err("unsupported instruction: ADDI".to_string()));
    assert_eq!(assemble_parts("ret", ""), Ok(0x00008067));
}

#[test]
fn encoder_formulas() {
    assert_eq!(encode_r(0x20, 7, 6, 0, 5, 0x33), 0x407302b3);
    assert_eq!(encode_i(-16, 2, 0, 2, 0x13), 0xff010113);
    assert_eq!(encode_s(-64, 6, 2, 0, 0x23), 0xfc610023);
    assert_eq!(encode_b(-8, 0, 10, 1, 0x63), 0xfe051ce3);
    assert_eq!(encode_u(0x12345000, 1, 0x37), 0x123450b7);
    assert_eq!(encode_j(-4, 0, 0x6F), 0xffdff06f);
}

#[test]
fn encoded_fields_read_back() {
    let w = encode_r(0x20, 7, 6, 5, 4, 0x33);
    assert_eq!((w >> 25, (w >> 20) & 31, (w >> 15) & 31, (w >> 12) & 7, (w >> 7) & 31, w & 127), (0x20, 7, 6, 5, 4, 0x33));
    let w = encode_i(-2048, 3, 2, 1, 0x13);
    assert_eq!(w >> 20, (-2048i64 as u32) & 0xFFF);
    let w = encode_s(-100, 9, 8, 2, 0x23);
    assert_eq!(((w >> 25) << 5) | ((w >> 7) & 31), (-100i64 as u32) & 0xFFF);
    let w = encode_b(-4094, 9, 8, 1, 0x63);
    let back = (((w >> 31) & 1) << 12) | (((w >> 7) & 1) << 11) | (((w >> 25) & 0x3F) << 5) | (((w >> 8) & 0xF) << 1);
    assert_eq!(back, (-4094i64 as u32) & 0x1FFE);
    let w = encode_u(0x7654_3210, 3, 0x17);
    assert_eq!(w & 0xFFFFF000, 0x7654_3000);
    let w = encode_j(-1048576, 5, 0x6F);
    let back = (((w >> 31) & 1) << 20) | (((w >> 12) & 0xFF) << 12) | (((w >> 20) & 1) << 11) | (((w >> 21) & 0x3FF) << 1);
    assert_eq!(back, (-1048576i64 as u32) & 0x1FFFFE);
}

#[test]
fn mock_program_assembles() {
    // Writes byte value 0x2a through sp - 64.
    assert_eq!(word("addi t1, x0, 42"), 0x02a00313);
    assert_eq!(word("sb t1, -64(sp)"), 0xfc610023);
}
