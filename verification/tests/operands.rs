use rvemu_cli::operand::{parse_immediate, parse_mem_operand, parse_register};

#[test]
fn register_names() {
    assert_eq!(parse_register("zero"), Ok(0));
    assert_eq!(parse_register("a0"), Ok(10));
    assert_eq!(parse_register("fp"), Ok(8));
    assert_eq!(parse_register("s0"), Ok(8));
    assert_eq!(parse_register("s11"), Ok(27));
    assert_eq!(parse_register("t6"), Ok(31));
    assert_eq!(parse_register(" x31, "), Ok(31));
    assert_eq!(parse_register("x+5"), Ok(5));
    assert_eq!(parse_register("x007"), Ok(7));
}

#[test]
fn x_names_read_back_their_numbers() {
    for n in 0u32..32 {
        assert_eq!(parse_register(&format!("x{}", n)), Ok(n));
    }
}

#[test]
fn unknown_registers() {
    assert_eq!(parse_register("x32"), Err("unknown register: x32".to_string()));
    assert_eq!(parse_register("x-1"), Err("unknown register: x-1".to_string()));
    assert_eq!(parse_register("x"), Err("unknown register: x".to_string()));
    assert_eq!(parse_register(" A0,,"), Err("unknown register: A0".to_string()));
}

#[test]
fn immediates() {
    assert_eq!(parse_immediate("42"), Ok(42));
    assert_eq!(parse_immediate("+7"), Ok(7));
    assert_eq!(parse_immediate("-5,"), Ok(-5));
    assert_eq!(parse_immediate("0x10"), Ok(16));
    assert_eq!(parse_immediate("0XfF"), Ok(255));
    assert_eq!(parse_immediate("-0x10"), Ok(-16));
    assert_eq!(parse_immediate("0x-5"), Ok(-5));
    assert_eq!(parse_immediate("9223372036854775807"), Ok(i64::MAX));
    assert_eq!(parse_immediate("-9223372036854775808"), Ok(i64::MIN));
    assert_eq!(parse_immediate("-0x7fffffffffffffff"), Ok(-i64::MAX));
}

#[test]
fn immediate_errors() {
    assert_eq!(
        parse_immediate(""),
        Err("bad immediate '': cannot parse integer from empty string".to_string())
    );
    assert_eq!(
        parse_immediate("0x"),
        Err("bad hex immediate '0x': cannot parse integer from empty string".to_string())
    );
    assert_eq!(
        parse_immediate("-"),
        Err("bad immediate '-': invalid digit found in string".to_string())
    );
    assert_eq!(
        parse_immediate("0xg"),
        Err("bad hex immediate '0xg': invalid digit found in string".to_string())
    );
    assert_eq!(
        parse_immediate("9223372036854775808"),
        Err("bad immediate '9223372036854775808': number too large to fit in target type".to_string())
    );
    assert_eq!(
        parse_immediate("-9223372036854775809"),
        Err("bad immediate '-9223372036854775809': number too small to fit in target type".to_string())
    );
    assert_eq!(
        parse_immediate("-0x8000000000000000"),
        Err("bad hex immediate '-0x8000000000000000': number too large to fit in target type".to_string())
    );
}

#[test]
fn immediates_read_back_what_was_written() {
    for v in [0i64, 1, 9, 10, 42, 2047, -1, -2048, 123456789, i64::MAX, i64::MIN] {
        assert_eq!(parse_immediate(&format!("{}", v)), Ok(v));
    }
    for v in [0i64, 1, 15, 16, 255, 0x12345, i64::MAX] {
        assert_eq!(parse_immediate(&format!("0x{:x}", v)), Ok(v));
    }
    for v in [-1i64, -16, -255, -0x12345, i64::MIN + 1] {
        assert_eq!(parse_immediate(&format!("-0x{:x}", -v)), Ok(v));
    }
}

#[test]
fn memory_operands() {
    assert_eq!(parse_mem_operand("8(x2)"), Ok((8, 2)));
    assert_eq!(parse_mem_operand(" -64(sp) "), Ok((-64, 2)));
    assert_eq!(parse_mem_operand("0x10( a0 )"), Ok((16, 10)));
    assert_eq!(
        parse_mem_operand("8 x2"),
        Err("expected offset(reg) syntax, got '8 x2'".to_string())
    );
    assert_eq!(
        parse_mem_operand("8(x2"),
        Err("expected offset(reg) syntax, got '8(x2'".to_string())
    );
    assert_eq!(parse_mem_operand("(x2)"), Err("bad immediate '': cannot parse integer from empty string".to_string()));
    assert_eq!(parse_mem_operand("8()"), Err("unknown register: ".to_string()));
}
