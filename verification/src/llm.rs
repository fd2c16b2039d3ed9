//! The state kept while a language model proposes RISC-V instructions: the
//! prompt built from the machine state, the reading of the model's reply,
//! and the history of executed instructions.
use vstd::prelude::*;
use crate::assembler::{
    assemble, assemble_panics, assemble_spec, law_assemble_not_compressed, try_assemble,
};
use crate::session::instruction_size_spec;
use crate::operand::{has_prefix, is_hex_token, view_res};
use crate::render::{
    alt_hex, alt_hex8, byte_hex, dec_text, hex8, push_alt_hex, push_alt_hex8, push_byte_hex,
    push_dec, push_hex_padded,
};
use crate::text::{
    chars_of, push_char, starts_with_lit, string_of, strip_trailing, trim, trim_end_char,
    trimmed,
};

verus! {

/// The base address of DRAM in the emulated machine.
pub const DRAM_BASE: u64 = 0x8000_0000;

/// How many executed instructions the history keeps.
pub const HISTORY_LIMIT: usize = 100;

/// A record of a previously executed instruction.
pub struct InstructionRecord {
    pub pc: u64,
    pub inst_hex: u64,
    pub description: String,
}

/// What the prompt shows of the machine: the program counter, the register
/// dump, the DRAM bytes and, for a small DRAM, its full dump.
pub struct CpuState<'a> {
    pub pc: u64,
    /// The register file as the emulator displays it.
    pub registers: &'a str,
    /// The contents of DRAM, starting at `DRAM_BASE`.
    pub dram: &'a [u8],
    /// The emulator's display of the whole DRAM; read only when the DRAM
    /// holds at most 1024 bytes (see `shows_whole_dram`).
    pub dram_dump: &'a str,
}

/// The executor's settings and the history of the instructions it ran. The
/// HTTP transport that talks to the model is kept beside it by the caller.
pub struct LlmExecutor {
    pub model: String,
    pub api_base_url: String,
    pub api_key: String,
    pub goal_memory: Option<Vec<u8>>,
    pub history: Vec<InstructionRecord>,
}

pub open spec fn sat_sub(a: nat, b: nat) -> nat {
    if a >= b {
        (a - b) as nat
    } else {
        0
    }
}

pub open spec fn min_nat(a: nat, b: nat) -> nat {
    if a <= b {
        a
    } else {
        b
    }
}

/// The bytes `bytes[i..line_end]` of a dump line that starts at `first`,
/// in two-digit hexadecimal, with a space before each byte at an even index
/// other than the first.
pub open spec fn line_bytes(bytes: Seq<u8>, first: nat, i: nat, line_end: nat) -> Seq<char>
    decreases line_end - i,
{
    if i >= line_end {
        Seq::empty()
    } else {
        (if i > first && i % 2 == 0 {
            seq![' ']
        } else {
            Seq::<char>::empty()
        }) + byte_hex(bytes[i as int]) + line_bytes(bytes, first, i + 1, line_end)
    }
}

/// The dump lines of `bytes[offset..end]`, sixteen bytes a line, each headed
/// by its address `base + offset` in eight hexadecimal digits.
pub open spec fn dump_lines(bytes: Seq<u8>, base: nat, offset: nat, end: nat) -> Seq<char>
    decreases end - offset,
{
    if offset >= end {
        Seq::empty()
    } else {
        let line = hex8(base + offset) + ": "@ + line_bytes(
            bytes,
            offset,
            offset,
            min_nat(offset + 16, end),
        ) + "\n"@;
        if offset + 16 >= end {
            line
        } else {
            line + dump_lines(bytes, base, offset + 16, end)
        }
    }
}

/// The fixed instructions that open every prompt.
pub open spec fn prompt_intro() -> Seq<char> {
    "You are a RISC-V CPU simulator. Given the current CPU state, generate the next single RISC-V instruction to execute. You MUST respond with ONLY the instruction, nothing else. The instruction must be a single RISC-V assembly mnemonic (e.g., addi a0, x0, 10).\n\nDo NOT include any explanation, comments, or extra text. Just the instruction.\n\n"@
}

/// Whether the prompt shows the whole DRAM (rather than a window around
/// the program counter).
pub open spec fn whole_dram_shown(size: nat) -> bool {
    size <= 1024
}

/// The program counter, registers and DRAM extent.
pub open spec fn state_section(cpu: CpuState) -> Seq<char> {
    let size = cpu.dram@.len();
    "=== Current CPU State ===\n"@ + "PC: "@ + alt_hex(cpu.pc as nat) + "\n"@ + cpu.registers@
        + "\n"@ + "DRAM base: 0x80000000, DRAM size: "@ + dec_text(size)
        + " bytes, valid DRAM range: [0x80000000, "@ + alt_hex(0x8000_0000 + sat_sub(size, 1))
        + "]\n"@
}

/// The DRAM: the whole dump when small, else the bytes from 64 before to
/// 192 after the program counter.
pub open spec fn memory_section(cpu: CpuState) -> Seq<char> {
    let size = cpu.dram@.len();
    if whole_dram_shown(size) {
        cpu.dram_dump@ + "\n"@
    } else {
        let pc_offset = sat_sub(cpu.pc as nat, 0x8000_0000);
        let start = sat_sub(pc_offset, 64);
        let end = min_nat(pc_offset + 192, size);
        "Memory (showing window around PC, total "@ + dec_text(size) + " bytes):\n"@ + dump_lines(
            cpu.dram@,
            0x8000_0000,
            start,
            end,
        )
    }
}

/// The goal DRAM contents, when there is a goal: its first 256 bytes.
pub open spec fn goal_section(goal: Option<Vec<u8>>) -> Seq<char> {
    match goal {
        None => Seq::empty(),
        Some(g) => {
            let preview = min_nat(g@.len(), 256);
            "\n=== Goal Memory ===\nThe bytes below are the desired DRAM contents starting at 0x80000000.\nBytes not specified in this goal are expected to remain zero.\n"@
                + "Goal file bytes: "@ + dec_text(g@.len()) + " (showing first "@ + dec_text(
                preview,
            ) + " bytes)\n"@ + dump_lines(g@, 0x8000_0000, 0, preview)
        },
    }
}

/// One history line.
pub open spec fn record_line(r: InstructionRecord) -> Seq<char> {
    "PC="@ + alt_hex(r.pc as nat) + " inst="@ + alt_hex8(r.inst_hex as nat) + " "@
        + r.description@ + "\n"@
}

/// The history lines of `h`, in order.
pub open spec fn record_lines(h: Seq<InstructionRecord>) -> Seq<char>
    decreases h.len(),
{
    if h.len() == 0 {
        Seq::empty()
    } else {
        record_lines(h.drop_last()) + record_line(h.last())
    }
}

/// The last 100 executed instructions, when there are any.
pub open spec fn history_section(h: Seq<InstructionRecord>) -> Seq<char> {
    if h.len() == 0 {
        Seq::empty()
    } else {
        let start = if h.len() > 100 {
            h.len() - 100
        } else {
            0
        };
        "\n=== Last Instructions Executed ===\n"@ + record_lines(h.subrange(start, h.len() as int))
    }
}

/// The whole prompt.
pub open spec fn prompt_spec(ex: LlmExecutor, cpu: CpuState) -> Seq<char> {
    prompt_intro() + state_section(cpu) + memory_section(cpu) + goal_section(ex.goal_memory)
        + history_section(ex.history@) + "\nNext instruction:\n"@
}

/// The history after recording `r`: `r` appended, the oldest record dropped
/// when more than 100 would remain.
pub open spec fn recorded(h: Seq<InstructionRecord>, r: InstructionRecord) -> Seq<
    InstructionRecord,
> {
    let pushed = h.push(r);
    if pushed.len() > 100 {
        pushed.drop_first()
    } else {
        pushed
    }
}

/// The error for a reply that is a hexadecimal machine word.
pub open spec fn hex_reply_error() -> Seq<char> {
    "hex machine-word responses are not supported; return assembly mnemonic"@
}

/// What reading the model's reply gives: a reply starting with `0x`/`0X` is
/// refused; any other is assembled.
pub open spec fn parse_response_spec(response: Seq<char>) -> Result<u64, Seq<char>> {
    let t = trim(response);
    if is_hex_token(t) {
        Err(hex_reply_error())
    } else {
        match assemble_spec(t) {
            Ok(w) => Ok(w as u64),
            Err(e) => Err(e),
        }
    }
}

/// Whether reading the model's reply fails at run time.
pub open spec fn parse_response_panics(response: Seq<char>) -> bool {
    let t = trim(response);
    !is_hex_token(t) && assemble_panics(t)
}

/// The chat-completions endpoint under the base URL `base` (its trailing
/// slashes dropped).
pub open spec fn chat_url_spec(base: Seq<char>) -> Seq<char> {
    trim_end_char(base, '/') + "/v1/chat/completions"@
}

/// The error for a reply with no usable text.
pub open spec fn no_content_error() -> Seq<char> {
    "No text content in API response choices[0].message.content"@
}

/// The text of a chat-completions reply whose choices carry the message
/// contents `contents`: the first choice's content, trimmed, when it is
/// there and not blank.
pub open spec fn reply_text_spec(contents: Seq<Option<String>>) -> Result<Seq<char>, Seq<char>> {
    if contents.len() > 0 && contents[0] is Some && trim(contents[0]->0@).len() > 0 {
        Ok(trim(contents[0]->0@))
    } else {
        Err(no_content_error())
    }
}

/// Whether an HTTP status code reports success (2xx).
pub open spec fn status_success(code: u16) -> bool {
    200 <= code <= 299
}

/// An instruction read from the model's reply is always a full four-byte
/// instruction, so executing it without a trap moves the program counter by
/// four.
pub proof fn law_reply_instruction_size(response: Seq<char>)
    ensures
        parse_response_spec(response) matches Ok(w) ==> instruction_size_spec(w) == 4,
{
    let t = trim(response);
    law_assemble_not_compressed(t);
    if let Ok(w) = parse_response_spec(response) {
        let a = assemble_spec(t)->Ok_0;
        assert(w == a as u64);
        assert(a & 3 == 3 ==> (a as u64) & 3 == 3) by (bit_vector);
    }
}

/// Recording keeps the history at no more than 100 records, ends it with
/// the new record, and keeps the records before it in order: the result is
/// the newest part of the history with the new record appended.
pub proof fn law_history_bounded(h: Seq<InstructionRecord>, r: InstructionRecord)
    ensures
        h.len() <= 100 ==> recorded(h, r).len() <= 100,
        recorded(h, r).len() >= 1,
        recorded(h, r).last() == r,
        recorded(h, r) == h.push(r).skip(h.len() + 1 - recorded(h, r).len()),
        h.len() < 100 ==> recorded(h, r) == h.push(r),
{
    let pushed = h.push(r);
    if pushed.len() > 100 {
        assert(pushed.drop_first() =~= pushed.skip(1));
    } else {
        assert(pushed.skip(0) =~= pushed);
    }
}

/// The prompt lists at most the last 100 recorded instructions.
pub proof fn law_prompt_history_window(h: Seq<InstructionRecord>)
    ensures
        h.len() > 100 ==> history_section(h) == "\n=== Last Instructions Executed ===\n"@
            + record_lines(h.skip(h.len() - 100)),
        0 < h.len() <= 100 ==> history_section(h) == "\n=== Last Instructions Executed ===\n"@
            + record_lines(h),
{
    if h.len() > 100 {
        assert(h.subrange(h.len() - 100, h.len() as int) =~= h.skip(h.len() - 100));
    } else if h.len() > 0 {
        assert(h.subrange(0, h.len() as int) =~= h);
    }
}

/// A status reports success exactly when it is in the 2xx class.
pub proof fn law_status_class(code: u16)
    ensures
        status_success(code) <==> code / 100 == 2,
{
}

/// Whether the text `t` starts with `0x` or `0X`.
pub open spec fn starts_with_hex_marker(t: Seq<char>) -> bool {
    t.len() >= 2 && t[0] == '0' && (t[1] == 'x' || t[1] == 'X')
}

/// A reply is refused as a hexadecimal machine word exactly when its trimmed
/// text starts with `0x` or `0X`; every other reply reads as what assembling
/// its trimmed text gives: the same word, or the same error, and it fails at
/// run time exactly where assembling does.
pub proof fn law_reply_refused_only_when_hex(response: Seq<char>)
    ensures
        starts_with_hex_marker(trim(response)) ==> parse_response_spec(response) == Err::<
            u64,
            Seq<char>,
        >(hex_reply_error()),
        starts_with_hex_marker(trim(response)) ==> !parse_response_panics(response),
        !starts_with_hex_marker(trim(response)) ==> (assemble_spec(trim(response)) matches Ok(w)
            ==> parse_response_spec(response) == Ok::<u64, Seq<char>>(w as u64)),
        !starts_with_hex_marker(trim(response)) ==> (assemble_spec(trim(response)) matches Err(e)
            ==> parse_response_spec(response) == Err::<u64, Seq<char>>(e)),
        !starts_with_hex_marker(trim(response)) ==> (parse_response_panics(response)
            == assemble_panics(trim(response))),
{
    let t = trim(response);
    reveal_strlit("0x");
    reveal_strlit("0X");
    assert("0x"@ =~= seq!['0', 'x']);
    assert("0X"@ =~= seq!['0', 'X']);
    if starts_with_hex_marker(t) {
        if t[1] == 'x' {
            assert(t.take(2) =~= "0x"@);
        } else {
            assert(t.take(2) =~= "0X"@);
        }
    } else {
        if has_prefix(t, "0x"@) {
            assert(t.take(2)[0] == t[0] && t.take(2)[1] == t[1]);
        }
        if has_prefix(t, "0X"@) {
            assert(t.take(2)[0] == t[0] && t.take(2)[1] == t[1]);
        }
    }
}

/// A DRAM of at most 1024 bytes is shown whole: the memory part of the
/// prompt is the emulator's full DRAM dump and a newline, and the prompt is
/// the fixed intro, the machine state, that dump, the goal, the history and
/// the request. Only a larger DRAM is shown as a window around the program
/// counter, headed by its size.
pub proof fn law_small_dram_shown_whole(ex: LlmExecutor, cpu: CpuState)
    ensures
        forall|size: nat| whole_dram_shown(size) <==> size <= 1024,
        cpu.dram@.len() <= 1024 ==> memory_section(cpu) == cpu.dram_dump@ + "\n"@,
        cpu.dram@.len() <= 1024 ==> prompt_spec(ex, cpu) == prompt_intro() + state_section(cpu)
            + cpu.dram_dump@ + "\n"@ + goal_section(ex.goal_memory) + history_section(ex.history@)
            + "\nNext instruction:\n"@,
        cpu.dram@.len() > 1024 ==> has_prefix(
            memory_section(cpu),
            "Memory (showing window around PC, total "@ + dec_text(cpu.dram@.len())
                + " bytes):\n"@,
        ),
{
    let size = cpu.dram@.len();
    if size > 1024 {
        let head = "Memory (showing window around PC, total "@ + dec_text(size) + " bytes):\n"@;
        let pc_offset = sat_sub(cpu.pc as nat, 0x8000_0000);
        let rest = dump_lines(cpu.dram@, 0x8000_0000, sat_sub(pc_offset, 64), min_nat(pc_offset + 192, size));
        assert((head + rest).take(head.len() as int) =~= head);
    }
}

/// Whether a prompt for a DRAM of `dram_size` bytes shows its full dump.
pub fn shows_whole_dram(dram_size: u64) -> (r: bool)
    ensures
        r == whole_dram_shown(dram_size as nat),
{
    dram_size <= 1024
}

/// Appends the dump lines of `bytes[offset..end]` to `out`.
fn push_dump_lines(out: &mut String, bytes: &[u8], base: u64, offset: usize, end: usize)
    requires
        end <= bytes@.len(),
        base + end + 16 <= u64::MAX,
    ensures
        final(out)@ == old(out)@ + dump_lines(bytes@, base as nat, offset as nat, end as nat),
{
    let mut off = offset;
    if off >= end {
        assert(final(out)@ =~= old(out)@ + dump_lines(bytes@, base as nat, offset as nat, end as nat));
        return;
    }
    while off < end
        invariant
            off < end ==> old(out)@ + dump_lines(bytes@, base as nat, offset as nat, end as nat)
                == out@ + dump_lines(bytes@, base as nat, off as nat, end as nat),
            off >= end ==> old(out)@ + dump_lines(bytes@, base as nat, offset as nat, end as nat)
                == out@,
            end <= bytes@.len(),
            base + end + 16 <= u64::MAX,
        decreases end - off,
    {
        let line_end: usize = if end - off >= 16 {
            off + 16
        } else {
            end
        };
        let ghost before = out@;
        push_hex_padded(out, base + off as u64, 8);
        out.append(": ");
        let mut i: usize = off;
        while i < line_end
            invariant
                off <= i <= line_end <= end <= bytes@.len(),
                out@ + line_bytes(bytes@, off as nat, i as nat, line_end as nat) == before
                    + hex8((base + off) as nat) + ": "@ + line_bytes(
                    bytes@,
                    off as nat,
                    off as nat,
                    line_end as nat,
                ),
            decreases line_end - i,
        {
            let ghost mid = out@;
            if i > off && i % 2 == 0 {
                push_char(out, ' ');
            }
            push_byte_hex(out, bytes[i]);
            assert(out@ + line_bytes(bytes@, off as nat, (i + 1) as nat, line_end as nat) =~= mid
                + line_bytes(bytes@, off as nat, i as nat, line_end as nat));
            i = i + 1;
        }
        out.append("\n");
        assert(out@ =~= before + (hex8((base + off) as nat) + ": "@ + line_bytes(
            bytes@,
            off as nat,
            off as nat,
            line_end as nat,
        ) + "\n"@));
        if end - off <= 16 {
            off = end;
        } else {
            assert(out@ + dump_lines(bytes@, base as nat, (off + 16) as nat, end as nat) =~= before
                + dump_lines(bytes@, base as nat, off as nat, end as nat));
            off = off + 16;
        }
    }
}

/// Appends `state_section(cpu)` to `out`.
fn push_state_section(out: &mut String, cpu: &CpuState)
    requires
        cpu.dram@.len() < 0x4000_0000_0000_0000,
    ensures
        final(out)@ == old(out)@ + state_section(*cpu),
{
    out.append("=== Current CPU State ===\n");
    out.append("PC: ");
    push_alt_hex(out, cpu.pc);
    out.append("\n");
    out.append(cpu.registers);
    out.append("\n");
    let size = cpu.dram.len() as u64;
    out.append("DRAM base: 0x80000000, DRAM size: ");
    push_dec(out, size);
    out.append(" bytes, valid DRAM range: [0x80000000, ");
    let last: u64 = if size >= 1 {
        size - 1
    } else {
        0
    };
    push_alt_hex(out, DRAM_BASE + last);
    out.append("]\n");
    assert(final(out)@ =~= old(out)@ + state_section(*cpu));
}

/// Appends `memory_section(cpu)` to `out`.
fn push_memory_section(out: &mut String, cpu: &CpuState)
    requires
        cpu.dram@.len() < 0x4000_0000_0000_0000,
    ensures
        final(out)@ == old(out)@ + memory_section(*cpu),
{
    let size = cpu.dram.len() as u64;
    if shows_whole_dram(size) {
        out.append(cpu.dram_dump);
        out.append("\n");
        assert(final(out)@ =~= old(out)@ + memory_section(*cpu));
        return;
    }
    out.append("Memory (showing window around PC, total ");
    push_dec(out, size);
    out.append(" bytes):\n");
    let pc_offset: u64 = if cpu.pc >= DRAM_BASE {
        cpu.pc - DRAM_BASE
    } else {
        0
    };
    let start: u64 = if pc_offset >= 64 {
        pc_offset - 64
    } else {
        0
    };
    let end: u64 = if pc_offset + 192 <= size {
        pc_offset + 192
    } else {
        size
    };
    let ghost header = out@;
    if start < end {
        push_dump_lines(out, cpu.dram, DRAM_BASE, start as usize, end as usize);
    } else {
        assert(dump_lines(cpu.dram@, 0x8000_0000, start as nat, end as nat) =~= Seq::<
            char,
        >::empty());
    }
    assert(final(out)@ =~= old(out)@ + memory_section(*cpu));
}

/// Appends `goal_section(goal)` to `out`.
fn push_goal_section(out: &mut String, goal: &Option<Vec<u8>>)
    ensures
        final(out)@ == old(out)@ + goal_section(*goal),
{
    match goal {
        None => {
            assert(final(out)@ =~= old(out)@ + goal_section(*goal));
        },
        Some(g) => {
            out.append(
                "\n=== Goal Memory ===\nThe bytes below are the desired DRAM contents starting at 0x80000000.\nBytes not specified in this goal are expected to remain zero.\n",
            );
            let preview: usize = if g.len() <= 256 {
                g.len()
            } else {
                256
            };
            out.append("Goal file bytes: ");
            push_dec(out, g.len() as u64);
            out.append(" (showing first ");
            push_dec(out, preview as u64);
            out.append(" bytes)\n");
            push_dump_lines(out, g.as_slice(), DRAM_BASE, 0, preview);
            assert(final(out)@ =~= old(out)@ + goal_section(*goal));
        },
    }
}

/// Appends `record_line(r)` to `out`.
fn push_record_line(out: &mut String, r: &InstructionRecord)
    ensures
        final(out)@ == old(out)@ + record_line(*r),
{
    out.append("PC=");
    push_alt_hex(out, r.pc);
    out.append(" inst=");
    push_alt_hex8(out, r.inst_hex);
    out.append(" ");
    out.append(r.description.as_str());
    out.append("\n");
    assert(final(out)@ =~= old(out)@ + record_line(*r));
}

/// Appends `history_section(h)` to `out`.
fn push_history_section(out: &mut String, h: &Vec<InstructionRecord>)
    ensures
        final(out)@ == old(out)@ + history_section(h@),
{
    let n = h.len();
    if n == 0 {
        assert(final(out)@ =~= old(out)@ + history_section(h@));
        return;
    }
    out.append("\n=== Last Instructions Executed ===\n");
    let start: usize = if n > HISTORY_LIMIT {
        n - HISTORY_LIMIT
    } else {
        0
    };
    let ghost header = out@;
    let mut i: usize = start;
    assert(h@.subrange(start as int, start as int) =~= Seq::<InstructionRecord>::empty());
    while i < n
        invariant
            start <= i <= n == h@.len(),
            out@ == header + record_lines(h@.subrange(start as int, i as int)),
        decreases n - i,
    {
        push_record_line(out, &h[i]);
        assert(h@.subrange(start as int, i + 1).drop_last() =~= h@.subrange(start as int, i as int));
        assert(out@ =~= header + record_lines(h@.subrange(start as int, i + 1)));
        i = i + 1;
    }
    assert(final(out)@ =~= old(out)@ + history_section(h@));
}

/// The URL of the chat-completions endpoint of the API at `base`.
pub fn chat_completions_url(base: &str) -> (u: String)
    ensures
        u@ == chat_url_spec(base@),
{
    let cs = chars_of(base);
    let mut u = string_of(strip_trailing(cs.as_slice(), '/'));
    u.append("/v1/chat/completions");
    u
}

/// The text of a chat-completions reply, given the message contents of its
/// choices: the first content, trimmed, unless missing or blank.
pub fn reply_text(contents: &Vec<Option<String>>) -> (r: Result<String, String>)
    ensures
        match r {
            Ok(s) => reply_text_spec(contents@) == Ok::<Seq<char>, Seq<char>>(s@),
            Err(e) => reply_text_spec(contents@) == Err::<Seq<char>, Seq<char>>(e@),
        },
{
    if contents.len() > 0 {
        if let Some(text) = &contents[0] {
            let cs = chars_of(text.as_str());
            let t = trimmed(cs.as_slice());
            if t.len() > 0 {
                return Ok(string_of(t));
            }
        }
    }
    Err(String::from_str("No text content in API response choices[0].message.content"))
}

/// Whether the HTTP status `code` is a success.
pub fn status_is_success(code: u16) -> (r: bool)
    ensures
        r == status_success(code),
{
    200 <= code && code <= 299
}

/// The error for a failed API call: the status as displayed and the body.
pub fn status_error(status: &str, body: &str) -> (e: String)
    ensures
        e@ == "API returned status "@ + status@ + ": "@ + body@,
{
    let mut e = String::from_str("API returned status ");
    e.append(status);
    e.append(": ");
    e.append(body);
    e
}

impl LlmExecutor {
    /// A new executor for `model` at `api_base_url`, with an empty history.
    pub fn new(model: String, api_base_url: String, api_key: String, goal_memory: Option<Vec<u8>>) -> (ex: Self)
        ensures
            ex.model == model,
            ex.api_base_url == api_base_url,
            ex.api_key == api_key,
            ex.goal_memory == goal_memory,
            ex.history@.len() == 0,
    {
        LlmExecutor { model, api_base_url, api_key, goal_memory, history: Vec::new() }
    }

    /// The prompt that asks the model for the next instruction: fixed
    /// instructions, the machine state, the goal memory if any, the last 100
    /// executed instructions if any, and the request for the next one.
    pub fn build_prompt(&self, cpu: &CpuState) -> (p: String)
        requires
            cpu.dram@.len() < 0x4000_0000_0000_0000,
        ensures
            p@ == prompt_spec(*self, *cpu),
    {
        let mut out = String::new();
        out.append(
            "You are a RISC-V CPU simulator. Given the current CPU state, generate the next single RISC-V instruction to execute. You MUST respond with ONLY the instruction, nothing else. The instruction must be a single RISC-V assembly mnemonic (e.g., addi a0, x0, 10).\n\nDo NOT include any explanation, comments, or extra text. Just the instruction.\n\n",
        );
        push_state_section(&mut out, cpu);
        push_memory_section(&mut out, cpu);
        push_goal_section(&mut out, &self.goal_memory);
        push_history_section(&mut out, &self.history);
        out.append("\nNext instruction:\n");
        assert(out@ =~= prompt_spec(*self, *cpu));
        out
    }

    /// Reads the model's reply as an instruction word. Only assembly is
    /// accepted: a reply that starts with `0x` or `0X` is refused.
    pub fn parse_response(&self, response: &str) -> (r: Result<u64, String>)
        requires
            !parse_response_panics(response@),
        ensures
            view_res(r) == parse_response_spec(response@),
    {
        let cs = chars_of(response);
        let t = trimmed(cs.as_slice());
        if starts_with_lit(t, "0x") || starts_with_lit(t, "0X") {
            return Err(
                String::from_str(
                    "hex machine-word responses are not supported; return assembly mnemonic",
                ),
            );
        }
        let text = string_of(t);
        match assemble(text.as_str()) {
            Ok(w) => Ok(w as u64),
            Err(e) => Err(e),
        }
    }

    /// Reads the model's reply as `parse_response` does; `None` exactly where
    /// that reading fails at run time (see `parse_response_panics`).
    pub fn try_parse_response(&self, response: &str) -> (r: Option<Result<u64, String>>)
        ensures
            r is None <==> parse_response_panics(response@),
            r matches Some(x) ==> view_res(x) == parse_response_spec(response@),
    {
        let cs = chars_of(response);
        let t = trimmed(cs.as_slice());
        if !(starts_with_lit(t, "0x") || starts_with_lit(t, "0X")) {
            let text = string_of(t);
            if try_assemble(text.as_str()).is_none() {
                return None;
            }
        }
        Some(self.parse_response(response))
    }

    /// Records an executed instruction, keeping only the last 100.
    pub fn record_instruction(&mut self, pc: u64, inst_hex: u64, description: String)
        ensures
            final(self).history@ == recorded(
                old(self).history@,
                (InstructionRecord { pc, inst_hex, description }),
            ),
            final(self).model == old(self).model,
            final(self).api_base_url == old(self).api_base_url,
            final(self).api_key == old(self).api_key,
            final(self).goal_memory == old(self).goal_memory,
    {
        self.history.push(InstructionRecord { pc, inst_hex, description });
        if self.history.len() > HISTORY_LIMIT {
            self.history.remove(0);
        }
        assert(self.history@ =~= recorded(
            old(self).history@,
            (InstructionRecord { pc, inst_hex, description }),
        ));
    }
}

} // verus!
