use rvemu_cli::llm::LlmExecutor;

fn make_executor() -> LlmExecutor {
    LlmExecutor::new(
        "dummy".to_string(),
        "https://api.openai.com".to_string(),
        "dummy".to_string(),
        None,
    )
}

#[test]
fn parse_response_rejects_hex_machine_word() {
    let ex = make_executor();
    let err = ex
        .parse_response("0x02a00293")
        .expect_err("hex instruction should not parse");
    assert!(err.contains("not supported"));
}

#[test]
fn parse_response_prefers_assembly_when_line_contains_hex_immediate() {
    let ex = make_executor();
    let inst = ex
        .parse_response("lui t2, 0x80000")
        .expect("assembly should parse");
    assert_eq!(inst, 0x8000_03b7);
}

#[test]
fn parse_response_trims_and_assembles() {
    let ex = make_executor();
    assert_eq!(ex.parse_response("  addi a0, x0, 10\n"), Ok(0x00a00513));
    assert_eq!(
        ex.parse_response(" 0X13"),
        Err("hex machine-word responses are not supported; return assembly mnemonic".to_string())
    );
    assert_eq!(ex.parse_response("explain"), Err("unsupported instruction: explain".to_string()));
}

#[test]
fn try_parse_response_flags_run_time_failures() {
    let ex = make_executor();
    assert_eq!(ex.try_parse_response("lui t2, 0x80000"), Some(Ok(0x8000_03b7)));
    assert_eq!(ex.try_parse_response("li a0, -0x-8000000000000000"), None);
    assert!(ex.try_parse_response("0x13").unwrap().is_err());
}

#[test]
fn replies_are_four_byte_instructions() {
    let ex = make_executor();
    for reply in ["nop", "ret", "li a0, 1", "sw a0, 0(sp)", "jal -8", "lui t2, 0x80000"] {
        let inst = ex.parse_response(reply).unwrap();
        assert_eq!(rvemu_cli::session::instruction_size(inst), 4, "{}", reply);
    }
}
