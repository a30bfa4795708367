use vstd::prelude::*;

verus! {

/// Default memory ceiling of a run, in bytes (8 GiB).
pub const MAX_MEMORY_LIMIT: u64 = 8589934592;

/// Coarse classification of the parser progress that the target reports.
#[derive(Clone, Copy, Debug, PartialEq, Eq, Structural)]
pub enum ParserState {
    Starting,
    Parsing,
    Error,
    Completed,
}

/// What the execution loop does after a breakpoint hit.
#[derive(Clone, Copy, Debug, PartialEq, Eq, Structural)]
pub enum Verdict {
    Continue,
    End,
    Break(u64),
}

/// The machine state observed when the target stops at a breakpoint.
#[derive(Clone, Copy, Debug, PartialEq, Eq, Structural)]
pub struct Registers {
    /// Current program counter.
    pub pc: u64,
    /// Parser status register.
    pub status: u64,
    /// Stack pointer.
    pub rsp: u64,
    /// Frame pointer.
    pub rbp: u64,
    /// Memory in use by the target, in bytes.
    pub memory_usage: u64,
}

/// The fixed mapping from a status value to a parser state.
pub open spec fn spec_parser_state(status: u64) -> ParserState {
    if status == 0 {
        ParserState::Starting
    } else if status == 1 {
        ParserState::Parsing
    } else if status == 2 {
        ParserState::Completed
    } else {
        ParserState::Error
    }
}

/// The verdict for a parser state given the observed machine state and the
/// memory ceiling `memory_limit`.
pub open spec fn spec_parser_verdict(state: ParserState, regs: Registers, memory_limit: u64) -> Verdict {
    match state {
        ParserState::Starting => if regs.rsp != 0 && regs.rbp != 0 {
            Verdict::Continue
        } else {
            Verdict::End
        },
        ParserState::Parsing => if regs.memory_usage > memory_limit {
            Verdict::End
        } else {
            Verdict::Continue
        },
        ParserState::Error => Verdict::Break(0),
        ParserState::Completed => Verdict::End,
    }
}

/// Classifies a status value; anything but 0, 1 and 2 is an error state.
pub fn parser_state(status: u64) -> (r: ParserState)
    ensures
        r == spec_parser_state(status),
        r == ParserState::Starting <==> status == 0,
        r == ParserState::Parsing <==> status == 1,
        r == ParserState::Completed <==> status == 2,
        r == ParserState::Error <==> status > 2,
{
    match status {
        0 => ParserState::Starting,
        1 => ParserState::Parsing,
        2 => ParserState::Completed,
        _ => ParserState::Error,
    }
}

/// Whether the target's frame registers are both set.
pub fn check_initial_state(regs: &Registers) -> (r: bool)
    ensures
        r == (regs.rsp != 0 && regs.rbp != 0),
{
    regs.rsp != 0 && regs.rbp != 0
}

/// The policy applied at the parser-entry breakpoint for each parser state.
pub fn parser_verdict(state: ParserState, regs: &Registers, memory_limit: u64) -> (r: Verdict)
    ensures
        r == spec_parser_verdict(state, *regs, memory_limit),
{
    match state {
        ParserState::Starting => {
            if !check_initial_state(regs) {
                Verdict::End
            } else {
                Verdict::Continue
            }
        },
        ParserState::Parsing => {
            if regs.memory_usage > memory_limit {
                Verdict::End
            } else {
                Verdict::Continue
            }
        },
        ParserState::Error => Verdict::Break(0),
        ParserState::Completed => Verdict::End,
    }
}

/// An error state stops the run as a crash trigger and a completed parse ends
/// it, whatever the rest of the machine state holds.
pub proof fn lemma_terminal_states(regs: Registers, memory_limit: u64)
    ensures
        spec_parser_verdict(ParserState::Error, regs, memory_limit) == Verdict::Break(0),
        spec_parser_verdict(ParserState::Completed, regs, memory_limit) == Verdict::End,
{
}

/// Every status value maps to exactly one parser state, and each value
/// outside 0, 1 and 2 maps to the error state.
pub proof fn lemma_classification_total(status: u64)
    ensures
        spec_parser_state(status) == ParserState::Starting
            || spec_parser_state(status) == ParserState::Parsing
            || spec_parser_state(status) == ParserState::Completed
            || spec_parser_state(status) == ParserState::Error,
        status > 2 ==> spec_parser_state(status) == ParserState::Error,
{
}

} // verus!
