//! The decisions of a run: which command-line inputs are acceptable, and,
//! in LLM mode, when to retry, how far an instruction moves the program
//! counter, and when to stop.
use vstd::prelude::*;

verus! {

/// How many times the model is asked for one instruction before giving up.
pub const MAX_RETRIES: u32 = 3;

/// Why an LLM-driven run stopped.
#[derive(Clone, Copy, Debug, PartialEq, Eq, Structural)]
pub enum Halt {
    /// Every attempt to reach the model failed.
    RetriesExhausted,
    /// The executed instruction raised a fatal trap.
    FatalTrap,
    /// The instruction limit was reached.
    LimitReached,
    /// DRAM starts with the goal bytes.
    GoalReached,
}

/// What the loop does next.
#[derive(Clone, Copy, Debug, PartialEq, Eq, Structural)]
pub enum Step {
    Continue,
    Stop(Halt),
}

/// The progress of an LLM-driven run: how many instructions were executed,
/// and the limit, if any.
pub struct LlmRun {
    pub executed: u64,
    pub max_instructions: Option<u64>,
}

/// What follows an executed instruction: a fatal trap stops the run first,
/// then the instruction limit, then a matched goal.
pub open spec fn step_after(executed: u64, limit: Option<u64>, fatal: bool, goal_matched: bool) -> Step {
    if fatal {
        Step::Stop(Halt::FatalTrap)
    } else if limit matches Some(l) && executed >= l {
        Step::Stop(Halt::LimitReached)
    } else if goal_matched {
        Step::Stop(Halt::GoalReached)
    } else {
        Step::Continue
    }
}

/// The size in bytes of the instruction `inst`: compressed instructions
/// (low two bits other than `0b11`) take two bytes, the others four.
pub open spec fn instruction_size_spec(inst: u64) -> u64 {
    if inst & 3 != 3 {
        2
    } else {
        4
    }
}

impl LlmRun {
    /// A run with nothing executed yet.
    pub fn new(max_instructions: Option<u64>) -> (r: Self)
        ensures
            r.executed == 0,
            r.max_instructions == max_instructions,
    {
        LlmRun { executed: 0, max_instructions }
    }

    /// After the failed request numbered `attempt` (counting from 0), whether
    /// the run asks again or gives up: the third failure ends it.
    pub fn after_request_failure(&self, attempt: u32) -> (s: Step)
        requires
            attempt < MAX_RETRIES,
        ensures
            s == if attempt + 1 == MAX_RETRIES {
                Step::Stop(Halt::RetriesExhausted)
            } else {
                Step::Continue
            },
    {
        if attempt + 1 == MAX_RETRIES {
            Step::Stop(Halt::RetriesExhausted)
        } else {
            Step::Continue
        }
    }

    /// Counts an executed instruction and decides whether to go on, given
    /// whether it trapped fatally and whether DRAM now matches the goal.
    pub fn after_instruction(&mut self, fatal: bool, goal_matched: bool) -> (s: Step)
        requires
            old(self).executed < u64::MAX,
        ensures
            final(self).executed == old(self).executed + 1,
            final(self).max_instructions == old(self).max_instructions,
            s == step_after(final(self).executed, old(self).max_instructions, fatal, goal_matched),
    {
        self.executed = self.executed + 1;
        if fatal {
            Step::Stop(Halt::FatalTrap)
        } else if self.max_instructions.is_some() && self.executed >= self.max_instructions.unwrap() {
            Step::Stop(Halt::LimitReached)
        } else if goal_matched {
            Step::Stop(Halt::GoalReached)
        } else {
            Step::Continue
        }
    }
}

/// The number of bytes the program counter moves past `inst` when it
/// executes without a trap.
pub fn instruction_size(inst: u64) -> (r: u64)
    ensures
        r == instruction_size_spec(inst),
{
    if inst & 3 != 3 {
        2
    } else {
        4
    }
}

/// Whether DRAM begins with the goal bytes.
pub fn goal_reached(dram: &[u8], goal: &[u8]) -> (r: bool)
    requires
        goal@.len() <= dram@.len(),
    ensures
        r == (dram@.take(goal@.len() as int) == goal@),
{
    let n = goal.len();
    let mut i: usize = 0;
    while i < n
        invariant
            i <= n == goal@.len() <= dram@.len(),
            forall|k: int| 0 <= k < i ==> dram@[k] == goal@[k],
        decreases n - i,
    {
        if dram[i] != goal[i] {
            assert(dram@.take(n as int)[i as int] != goal@[i as int]);
            return false;
        }
        i = i + 1;
    }
    assert(dram@.take(n as int) =~= goal@);
    true
}

/// The limit on LLM-generated instructions: the one given, else, in mock
/// mode, the length of the mock program.
pub fn instruction_limit(given: Option<u64>, mock_program_len: Option<u64>) -> (r: Option<u64>)
    ensures
        r == if given is Some {
            given
        } else {
            mock_program_len
        },
{
    if given.is_some() {
        given
    } else {
        mock_program_len
    }
}

/// Whether a kernel image is given when one is needed: always, unless the
/// run is LLM-driven.
pub fn check_kernel(kernel_given: bool, llm: bool) -> (r: Result<(), String>)
    ensures
        r is Ok <==> (kernel_given || llm),
        r matches Err(e) ==> e@ == "--kernel is required unless --llm is enabled"@,
{
    if kernel_given || llm {
        Ok(())
    } else {
        Err(String::from_str("--kernel is required unless --llm is enabled"))
    }
}

/// The checks on the memory inputs: starting memory and a goal only go with
/// LLM mode, and LLM mode takes a kernel or a starting memory, not both.
pub fn check_memory_inputs(llm: bool, kernel_given: bool, starting_given: bool, goal_given: bool) -> (r:
    Result<(), String>)
    ensures
        r is Ok <==> ((llm || !(starting_given || goal_given)) && !(llm && starting_given
            && kernel_given)),
        r matches Err(e) ==> if !llm && (starting_given || goal_given) {
            e@ == "--starting-memory and --goal-file are only valid with --llm"@
        } else {
            e@ == "Use either --kernel or --starting-memory with --llm, not both"@
        },
{
    if !llm && (starting_given || goal_given) {
        return Err(String::from_str("--starting-memory and --goal-file are only valid with --llm"));
    }
    if llm && starting_given && kernel_given {
        return Err(String::from_str("Use either --kernel or --starting-memory with --llm, not both"));
    }
    Ok(())
}

/// The checks that the initial DRAM contents and the goal fit in DRAM.
pub fn check_sizes(initial_len: u64, goal_len: Option<u64>, dram_size: u64) -> (r: Result<(), String>)
    ensures
        r is Ok <==> (initial_len <= dram_size && (goal_len matches Some(g) ==> g <= dram_size)),
        r matches Err(e) ==> if initial_len > dram_size {
            e@ == "initial DRAM input is larger than --memory-size"@
        } else {
            e@ == "goal file is larger than --memory-size"@
        },
{
    if initial_len > dram_size {
        return Err(String::from_str("initial DRAM input is larger than --memory-size"));
    }
    if let Some(g) = goal_len {
        if g > dram_size {
            return Err(String::from_str("goal file is larger than --memory-size"));
        }
    }
    Ok(())
}

/// Why a run stops after an instruction: a fatal trap, whatever else holds;
/// otherwise the limit, only when one is set and the count has reached it;
/// otherwise a matched goal; and it goes on in every other case.
pub proof fn law_halt_reasons(executed: u64, limit: Option<u64>, fatal: bool, goal_matched: bool)
    ensures
        step_after(executed, limit, fatal, goal_matched) == Step::Stop(Halt::LimitReached) <==> (
        !fatal && limit is Some && executed >= limit->0),
        step_after(executed, limit, fatal, goal_matched) == Step::Stop(Halt::GoalReached) <==> (
        !fatal && !(limit is Some && executed >= limit->0) && goal_matched),
        step_after(executed, limit, fatal, goal_matched) == Step::Stop(Halt::FatalTrap) <==> fatal,
        step_after(executed, limit, fatal, goal_matched) == Step::Continue <==> (!fatal && !(
        limit is Some && executed >= limit->0) && !goal_matched),
        step_after(executed, limit, fatal, goal_matched) != Step::Stop(Halt::RetriesExhausted),
{
}

/// An instruction takes two bytes exactly when its low two bits are not
/// `0b11` (a compressed instruction: `0b00`, `0b01` or `0b10`), and four
/// bytes otherwise.
pub proof fn law_instruction_size(inst: u64)
    ensures
        instruction_size_spec(inst) == 2 <==> inst % 4 != 3,
        instruction_size_spec(inst) == 4 <==> inst % 4 == 3,
{
    assert(inst & 3 == inst % 4) by (bit_vector);
}

/// A run only goes on while it has executed fewer instructions than its
/// limit, never past a fatal trap, and never once the goal is reached.
pub proof fn law_run_stops(executed: u64, limit: Option<u64>, fatal: bool, goal_matched: bool)
    ensures
        step_after(executed, limit, fatal, goal_matched) == Step::Continue ==> {
            &&& !fatal
            &&& !goal_matched
            &&& limit matches Some(l) ==> executed < l
        },
        fatal ==> step_after(executed, limit, fatal, goal_matched) == Step::Stop(Halt::FatalTrap),
{
}

} // verus!
