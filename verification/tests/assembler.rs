use rvemu_cli::assembler::assemble;

#[test]
fn test_addi() {
    // addi a0, x0, 10 should be 0x00a00513
    let inst = assemble("addi a0, x0, 10").unwrap();
    assert_eq!(inst, 0x00a00513);
}

#[test]
fn test_add() {
    // add x1, x2, x3
    let inst = assemble("add x1, x2, x3").unwrap();
    assert_eq!(inst, 0x003100b3);
}

#[test]
fn test_nop() {
    let inst = assemble("nop").unwrap();
    assert_eq!(inst, 0x00000013);
}

#[test]
fn test_ecall() {
    let inst = assemble("ecall").unwrap();
    assert_eq!(inst, 0x00000073);
}

#[test]
fn test_sw() {
    // sw x5, 8(x2) -> offset=8, rs2=5, rs1=2, funct3=2, opcode=0x23
    let inst = assemble("sw x5, 8(x2)").unwrap();
    assert_eq!(inst, 0x00512423);
}

#[test]
fn test_lw() {
    // lw x5, 8(x2)
    let inst = assemble("lw x5, 8(x2)").unwrap();
    assert_eq!(inst, 0x00812283);
}

#[test]
fn test_beq() {
    // beq x1, x2, 8
    let inst = assemble("beq x1, x2, 8").unwrap();
    assert_eq!(inst, 0x00208463);
}

#[test]
fn test_lui() {
    // lui x1, 0x12345 -> upper 20 bits = 0x12345, rd=1
    let inst = assemble("lui x1, 0x12345").unwrap();
    assert_eq!(inst, 0x123450b7);
}

#[test]
fn test_li() {
    // li a0, 42 -> addi a0, x0, 42
    let inst = assemble("li a0, 42").unwrap();
    assert_eq!(inst, 0x02a00513);
}

#[test]
fn test_ret() {
    // ret -> jalr x0, x1, 0 = 0x00008067
    let inst = assemble("ret").unwrap();
    assert_eq!(inst, 0x00008067);
}
