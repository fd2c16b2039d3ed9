use rvemu_cli::llm::{chat_completions_url, reply_text, status_error, status_is_success, CpuState, InstructionRecord, LlmExecutor};
use rvemu_cli::render::format_bytes_hex;

/// The prompt text written out with `format!`, piece by piece.
fn expected_prompt(ex: &LlmExecutor, pc: u64, regs: &str, dram: &[u8], dump: &str) -> String {
    let mut prompt = String::new();
    prompt.push_str(
        "You are a RISC-V CPU simulator. Given the current CPU state, generate the next \
         single RISC-V instruction to execute. You MUST respond with ONLY the instruction, \
         nothing else. The instruction must be a single RISC-V assembly mnemonic \
         (e.g., addi a0, x0, 10).\n\n\
         Do NOT include any explanation, comments, or extra text. Just the instruction.\n\n",
    );
    prompt.push_str("=== Current CPU State ===\n");
    prompt.push_str(&format!("PC: {:#x}\n", pc));
    prompt.push_str(&format!("{}\n", regs));
    let dram_size = dram.len() as u64;
    prompt.push_str(&format!(
        "DRAM base: 0x80000000, DRAM size: {} bytes, valid DRAM range: [0x80000000, {:#x}]\n",
        dram_size,
        0x8000_0000u64 + dram_size.saturating_sub(1)
    ));
    if dram_size <= 1024 {
        prompt.push_str(&format!("{}\n", dump));
    } else {
        prompt.push_str(&format!("Memory (showing window around PC, total {} bytes):\n", dram_size));
        let dram_base: u64 = 0x80000000;
        let pc_offset = pc.saturating_sub(dram_base);
        let start = pc_offset.saturating_sub(64);
        let end = std::cmp::min(pc_offset + 192, dram_size);
        for offset in (start..end).step_by(16) {
            let end_byte = std::cmp::min(offset + 16, end);
            prompt.push_str(&format!("{:08x}: ", dram_base + offset));
            for i in offset..end_byte {
                if i > offset && i % 2 == 0 {
                    prompt.push(' ');
                }
                prompt.push_str(&format!("{:02x}", dram[i as usize]));
            }
            prompt.push('\n');
        }
    }
    if let Some(goal) = &ex.goal_memory {
        prompt.push_str(
            "\n=== Goal Memory ===\n\
             The bytes below are the desired DRAM contents starting at 0x80000000.\n\
             Bytes not specified in this goal are expected to remain zero.\n",
        );
        let preview_len = std::cmp::min(goal.len(), 256);
        prompt.push_str(&format!(
            "Goal file bytes: {} (showing first {} bytes)\n",
            goal.len(),
            preview_len
        ));
        for offset in (0..preview_len).step_by(16) {
            let end = std::cmp::min(offset + 16, preview_len);
            prompt.push_str(&format!("{:08x}: ", 0x8000_0000u64 + offset as u64));
            for i in offset..end {
                if i > offset && i % 2 == 0 {
                    prompt.push(' ');
                }
                prompt.push_str(&format!("{:02x}", goal[i]));
            }
            prompt.push('\n');
        }
    }
    if !ex.history.is_empty() {
        prompt.push_str("\n=== Last Instructions Executed ===\n");
        let start = if ex.history.len() > 100 { ex.history.len() - 100 } else { 0 };
        for record in &ex.history[start..] {
            prompt.push_str(&format!(
                "PC={:#x} inst={:#010x} {}\n",
                record.pc, record.inst_hex, record.description
            ));
        }
    }
    prompt.push_str("\nNext instruction:\n");
    prompt
}

fn executor(goal: Option<Vec<u8>>) -> LlmExecutor {
    LlmExecutor::new("m".to_string(), "https://example.test/".to_string(), "k".to_string(), goal)
}

#[test]
fn prompt_with_small_dram_shows_the_dump() {
    let ex = executor(None);
    let dram = vec![0u8; 64];
    let cpu = CpuState { pc: 0x8000_0000, registers: "x0=0x0", dram: &dram, dram_dump: "DUMP" };
    let p = ex.build_prompt(&cpu);
    assert_eq!(p, expected_prompt(&ex, 0x8000_0000, "x0=0x0", &dram, "DUMP"));
    assert!(p.contains("PC: 0x80000000\n"));
    assert!(p.contains("valid DRAM range: [0x80000000, 0x8000003f]\n"));
    assert!(p.contains("DUMP\n"));
    assert!(p.ends_with("\nNext instruction:\n"));
}

#[test]
fn prompt_with_large_dram_shows_a_window_around_pc() {
    let mut ex = executor(Some((0u8..40).collect()));
    let dram: Vec<u8> = (0..4096u32).map(|i| (i * 7 % 256) as u8).collect();
    for pc in [0x8000_0000u64, 0x8000_0003, 0x8000_0101, 0x8000_0ff0, 0x8000_2000, 0x10] {
        let cpu = CpuState { pc, registers: "regs", dram: &dram, dram_dump: "" };
        assert_eq!(ex.build_prompt(&cpu), expected_prompt(&ex, pc, "regs", &dram, ""));
    }
    for i in 0..130u64 {
        ex.record_instruction(0x8000_0000 + 4 * i, 0x13 + i, format!("step {}", i));
    }
    let cpu = CpuState { pc: 0x8000_0105, registers: "regs", dram: &dram, dram_dump: "" };
    let p = ex.build_prompt(&cpu);
    assert_eq!(p, expected_prompt(&ex, 0x8000_0105, "regs", &dram, ""));
    assert!(p.contains("PC=0x80000078 inst=0x00000031 step 30\n"));
    assert!(!p.contains("step 29\n"));
}

#[test]
fn prompt_shows_the_first_256_goal_bytes() {
    let goal: Vec<u8> = (0..300u32).map(|i| (i % 251) as u8).collect();
    let ex = executor(Some(goal));
    let dram = vec![5u8; 2000];
    let cpu = CpuState { pc: 0x8000_07c9, registers: "r", dram: &dram, dram_dump: "" };
    let p = ex.build_prompt(&cpu);
    assert_eq!(p, expected_prompt(&ex, 0x8000_07c9, "r", &dram, ""));
    assert!(p.contains("Goal file bytes: 300 (showing first 256 bytes)\n"));
    assert!(p.contains("800000f0: f0f1 f2f3 f4f5 f6f7 f8f9 fa00 0102 0304\n"));
}

#[test]
fn prompt_with_empty_dram() {
    let ex = executor(Some(Vec::new()));
    let dram: Vec<u8> = Vec::new();
    let cpu = CpuState { pc: 0, registers: "", dram: &dram, dram_dump: "" };
    let p = ex.build_prompt(&cpu);
    assert_eq!(p, expected_prompt(&ex, 0, "", &dram, ""));
    assert!(p.contains("valid DRAM range: [0x80000000, 0x80000000]\n"));
    assert!(p.contains("Goal file bytes: 0 (showing first 0 bytes)\n"));
}

#[test]
fn history_keeps_the_last_hundred() {
    let mut ex = executor(None);
    for i in 0..100u64 {
        ex.record_instruction(i, i, format!("{}", i));
    }
    assert_eq!(ex.history.len(), 100);
    assert_eq!(ex.history[0].pc, 0);
    ex.record_instruction(100, 100, "last".to_string());
    assert_eq!(ex.history.len(), 100);
    assert_eq!(ex.history[0].pc, 1);
    let last: &InstructionRecord = ex.history.last().unwrap();
    assert_eq!((last.pc, last.inst_hex, last.description.as_str()), (100, 100, "last"));
}

#[test]
fn new_executor_keeps_its_settings() {
    let ex = executor(Some(vec![1, 2]));
    assert_eq!(ex.model, "m");
    assert_eq!(ex.api_base_url, "https://example.test/");
    assert_eq!(ex.api_key, "k");
    assert_eq!(ex.goal_memory, Some(vec![1, 2]));
    assert!(ex.history.is_empty());
}

#[test]
fn bytes_hex_dumps() {
    assert_eq!(format_bytes_hex(&[], 256), "(empty)");
    assert_eq!(format_bytes_hex(&[0x01, 0xab, 0x00], 256), "01 ab 00");
    assert_eq!(format_bytes_hex(&[0x01, 0xab, 0x00], 2), "01 ab ... (1 more bytes)");
    assert_eq!(format_bytes_hex(&[7], 0), " ... (1 more bytes)");
    let big = vec![0xffu8; 300];
    let s = format_bytes_hex(&big, 256);
    assert!(s.ends_with("ff ... (44 more bytes)"));
    assert_eq!(s.len(), 256 * 3 - 1 + " ... (44 more bytes)".len());
}

#[test]
fn chat_api_helpers() {
    assert_eq!(chat_completions_url("https://api.openai.com"), "https://api.openai.com/v1/chat/completions");
    assert_eq!(chat_completions_url("http://h//"), "http://h/v1/chat/completions");
    assert_eq!(reply_text(&vec![Some("  addi a0, x0, 1 \n".to_string()), None]), Ok("addi a0, x0, 1".to_string()));
    let missing = Err("No text content in API response choices[0].message.content".to_string());
    assert_eq!(reply_text(&vec![]), missing);
    assert_eq!(reply_text(&vec![None, Some("x".to_string())]), missing);
    assert_eq!(reply_text(&vec![Some(" \t ".to_string())]), missing);
    assert!(status_is_success(200));
    assert!(status_is_success(299));
    assert!(!status_is_success(300));
    assert!(!status_is_success(199));
    assert_eq!(status_error("404 Not Found", "nope"), "API returned status 404 Not Found: nope");
}
