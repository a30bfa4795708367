use std::collections::hash_map::DefaultHasher;
use std::collections::HashSet;
use std::hash::Hasher;
use vstd::prelude::*;
use vstd::std_specs::hash::DefaultHasherAdditionalSpecFns;
use vstd::utf8::*;

use crate::dispatch::{
    parser_state, parser_verdict, spec_parser_state, spec_parser_verdict, Registers, Verdict,
    MAX_MEMORY_LIMIT,
};
use vstd::string::*;

use crate::text::{contains_bytes, find_bytes, hex_text, lossy_of, lossy_text, push_hex};
use crate::{ExecutionResult, FuzzingStats};

verus! {

broadcast use vstd::std_specs::hash::group_hash_axioms;

/// Longest input that is fed to the target, in bytes.
pub const MAX_INPUT_LENGTH: usize = 4096;

/// Address of the SQL parser entry point, where the parser breakpoint sits.
pub const SQL_PARSER_ENTRY: u64 = 0x4012B0;

/// Address of the target's input buffer.
pub const INPUT_ADDRESS: u64 = 0x402004;

/// Index of the parser-entry breakpoint in the breakpoint table.
pub const PARSER_BREAKPOINT: usize = 0;

/// Default wall-clock budget of one input, in seconds.
pub const EXECUTION_TIMEOUT_SECS: u64 = 10;

/// What the executor reports when it stops the target.
#[derive(Clone, Copy, Debug, PartialEq, Eq, Structural)]
pub enum Signal {
    /// Stopped at the breakpoint with this index.
    Break(usize),
    /// The target finished.
    End,
    /// Stopped elsewhere; execution is not finished.
    Continue,
}

/// What the execution loop does next.
#[derive(Clone, Copy, Debug, PartialEq, Eq, Structural)]
pub enum Drive {
    /// Resume the target.
    Resume,
    /// Stop the run with this verdict.
    Stop(Verdict),
}

/// How the drive of one input ended.
pub enum RunEnd {
    /// The loop stopped with a verdict.
    Stopped(Verdict),
    /// The executor raised a condition, described by this message.
    Failed(String),
}

/// The class of a finished run.
#[derive(Clone, Copy, Debug, PartialEq, Eq, Structural)]
pub enum RunClass {
    Clean,
    Crashed,
    TimedOut,
}

/// The step taken on a signal under the memory ceiling `memory_limit`.
pub open spec fn spec_drive(signal: Signal, regs: Registers, memory_limit: u64) -> Drive {
    match signal {
        Signal::Break(idx) => if regs.memory_usage > memory_limit {
            Drive::Stop(Verdict::End)
        } else if idx == PARSER_BREAKPOINT {
            let v = spec_parser_verdict(spec_parser_state(regs.status), regs, memory_limit);
            if v == Verdict::Continue {
                Drive::Resume
            } else {
                Drive::Stop(v)
            }
        } else {
            Drive::Resume
        },
        Signal::End => Drive::Stop(Verdict::End),
        Signal::Continue => Drive::Resume,
    }
}

/// The coverage set after a signal.
pub open spec fn spec_covered(coverage: Set<u64>, signal: Signal, regs: Registers) -> Set<u64> {
    match signal {
        Signal::Break(_) => coverage.insert(regs.pc),
        _ => coverage,
    }
}

/// The content hash of a diagnostic text: the default hasher over its bytes
/// and the terminating `0xff` that `str` hashing writes.
pub open spec fn spec_crash_hash(text: Seq<char>) -> u64 {
    DefaultHasher::spec_finish(seq![encode_utf8(text), seq![0xffu8]])
}

/// The crash-hash set after a diagnostic text is reported.
pub open spec fn spec_record_crash(crashes: Set<u64>, text: Seq<char>) -> Set<u64> {
    crashes.insert(spec_crash_hash(text))
}

/// The executor message of a memory fault.
pub open spec fn segfault_marker() -> Seq<u8> {
    encode_utf8("SIGSEGV"@)
}

/// The executor message of an exceeded wall-clock budget.
pub open spec fn timeout_marker() -> Seq<u8> {
    encode_utf8("timeout"@)
}

/// The class of a run from how it ended; an unrecognised failure counts as clean.
pub open spec fn spec_run_class(stopped: Option<Verdict>, message: Seq<u8>) -> RunClass {
    match stopped {
        Some(Verdict::Break(_)) => RunClass::Crashed,
        Some(_) => RunClass::Clean,
        None => if contains_bytes(message, segfault_marker()) {
            RunClass::Crashed
        } else if contains_bytes(message, timeout_marker()) {
            RunClass::TimedOut
        } else {
            RunClass::Clean
        },
    }
}

/// One line per stack frame address, in order.
pub open spec fn trace_lines(trace: Seq<u64>) -> Seq<char>
    decreases trace.len(),
{
    if trace.len() == 0 {
        seq![]
    } else {
        trace_lines(trace.drop_last()) + "  0x"@ + hex_text(trace.last() as nat) + "\n"@
    }
}

/// The diagnostic text of a crash at `pc` whose input reads `text`, with the
/// stack trace when one could be captured.
pub open spec fn crash_report(pc: u64, text: Seq<char>, trace: Option<Seq<u64>>) -> Seq<char> {
    "Crash at RIP: "@ + hex_text(pc as nat) + "\n"@ + "Input: "@ + text + "\n"@
        + match trace {
        Some(t) => "Stack trace:\n"@ + trace_lines(t),
        None => seq![],
    }
}

/// The outcome of a run of class `class`; `crash_info` is the diagnostic
/// text that a crash carries.
pub fn outcome_of(class: RunClass, crash_info: String) -> (r: ExecutionResult)
    ensures
        r == (match class {
            RunClass::Clean => ExecutionResult::Normal,
            RunClass::Crashed => ExecutionResult::Crash(crash_info),
            RunClass::TimedOut => ExecutionResult::Timeout,
        }),
{
    match class {
        RunClass::Clean => ExecutionResult::Normal,
        RunClass::Crashed => ExecutionResult::Crash(crash_info),
        RunClass::TimedOut => ExecutionResult::Timeout,
    }
}

/// The diagnostic text of a crash at `pc` whose input reads `input_text`,
/// with the stack trace when one could be captured.
pub fn crash_report_text(pc: u64, input_text: &str, stack_trace: Option<&[u64]>) -> (r: String)
    ensures
        r@ == crash_report(
            pc,
            input_text@,
            match stack_trace {
                Some(t) => Some(t@),
                None => None,
            },
        ),
{
    let mut info = String::new();
    info.append("Crash at RIP: ");
    push_hex(&mut info, pc);
    info.append("\n");
    info.append("Input: ");
    info.append(input_text);
    info.append("\n");
    let ghost head = info@;
    assert(head =~= "Crash at RIP: "@ + hex_text(pc as nat) + "\n"@ + "Input: "@ + input_text@
        + "\n"@);
    match stack_trace {
        Some(trace) => {
            info.append("Stack trace:\n");
            let mut k: usize = 0;
            while k < trace.len()
                invariant
                    k <= trace@.len(),
                    info@ == head + "Stack trace:\n"@ + trace_lines(
                        trace@.subrange(0, k as int),
                    ),
                decreases trace@.len() - k,
            {
                info.append("  0x");
                push_hex(&mut info, trace[k]);
                info.append("\n");
                proof {
                    let next = trace@.subrange(0, k + 1);
                    assert(next.drop_last() =~= trace@.subrange(0, k as int));
                    assert(info@ =~= head + "Stack trace:\n"@ + trace_lines(next));
                }
                k = k + 1;
            }
            assert(trace@.subrange(0, k as int) =~= trace@);
            assert(info@ =~= head + ("Stack trace:\n"@ + trace_lines(trace@)));
        },
        None => {
            assert(info@ =~= head + Seq::<char>::empty());
        },
    }
    info
}

/// Crash triage is idempotent: reporting the same diagnostic text again
/// leaves the crash-hash set as the first report left it, that report adds at
/// most one crash class, and afterwards the class is known, so no second
/// artifact pair is written for it.
pub proof fn lemma_crash_dedup(crashes: Set<u64>, text: Seq<char>)
    requires
        crashes.finite(),
    ensures
        spec_record_crash(spec_record_crash(crashes, text), text) == spec_record_crash(
            crashes,
            text,
        ),
        spec_record_crash(crashes, text).len() <= crashes.len() + 1,
        spec_record_crash(crashes, text).contains(spec_crash_hash(text)),
{
    let once = spec_record_crash(crashes, text);
    assert(once.insert(spec_crash_hash(text)) =~= once);
}

/// Hashes a diagnostic text as `str` hashing does with the default hasher.
pub fn crash_hash(text: &str) -> (r: u64)
    ensures
        r == spec_crash_hash(text@),
{
    let mut hasher = DefaultHasher::new();
    hasher.write(text.as_bytes());
    let end: [u8; 1] = [0xffu8];
    hasher.write(&end);
    proof {
        assert(end@ =~= seq![0xffu8]);
        assert(hasher@ =~= seq![encode_utf8(text@), seq![0xffu8]]);
    }
    hasher.finish()
}

/// Classifies the end of a run: a crash-trigger verdict or a memory fault is
/// a crash, an exceeded budget a timeout, anything else clean.
pub fn classify_run_end(end: &RunEnd) -> (r: RunClass)
    ensures
        r == match end {
            RunEnd::Stopped(v) => spec_run_class(Some(*v), seq![]),
            RunEnd::Failed(m) => spec_run_class(None, encode_utf8(m@)),
        },
{
    match end {
        RunEnd::Stopped(Verdict::Break(_)) => RunClass::Crashed,
        RunEnd::Stopped(_) => RunClass::Clean,
        RunEnd::Failed(message) => {
            let bytes = message.as_str().as_bytes();
            if find_bytes(bytes, "SIGSEGV".as_bytes()).is_some() {
                RunClass::Crashed
            } else if find_bytes(bytes, "timeout".as_bytes()).is_some() {
                RunClass::TimedOut
            } else {
                RunClass::Clean
            }
        },
    }
}

/// Whether a corpus pass may start another input after `elapsed_secs`
/// seconds; a limit of 0 means no limit.
pub fn within_time_limit(elapsed_secs: u64, time_limit: u64) -> (r: bool)
    ensures
        r == (time_limit == 0 || elapsed_secs < time_limit),
{
    !(time_limit > 0 && elapsed_secs >= time_limit)
}

/// A fuzzing session: coverage, known crash classes and the execution count.
pub struct ClickHouseFuzzer {
    coverage: HashSet<u64>,
    crashes: HashSet<u64>,
    execution_count: u64,
    memory_limit: u64,
    timeout_secs: u64,
}

impl ClickHouseFuzzer {
    /// The session's sets are finite.
    pub closed spec fn wf(&self) -> bool {
        &&& self.coverage@.finite()
        &&& self.crashes@.finite()
    }

    /// Memory ceiling of a run, in bytes.
    pub closed spec fn spec_memory_limit(&self) -> u64 {
        self.memory_limit
    }

    /// Wall-clock budget of one input, in seconds.
    pub closed spec fn spec_timeout_secs(&self) -> u64 {
        self.timeout_secs
    }

    /// `next` keeps the memory ceiling and the time budget of `prev`.
    pub open spec fn same_settings(prev: &Self, next: &Self) -> bool {
        &&& next.spec_memory_limit() == prev.spec_memory_limit()
        &&& next.spec_timeout_secs() == prev.spec_timeout_secs()
    }

    /// Program counters observed so far.
    pub closed spec fn coverage(&self) -> Set<u64> {
        self.coverage@
    }

    /// Content hashes of the crash classes seen so far.
    pub closed spec fn crashes(&self) -> Set<u64> {
        self.crashes@
    }

    /// Number of executions started so far.
    pub closed spec fn execution_count(&self) -> u64 {
        self.execution_count
    }

    /// A session with nothing observed yet, the default memory ceiling and
    /// the default time budget.
    pub fn new() -> (r: Self)
        ensures
            r.wf(),
            r.coverage() == Set::<u64>::empty(),
            r.crashes() == Set::<u64>::empty(),
            r.execution_count() == 0,
            r.spec_memory_limit() == MAX_MEMORY_LIMIT,
            r.spec_timeout_secs() == EXECUTION_TIMEOUT_SECS,
    {
        Self::with_limits(MAX_MEMORY_LIMIT, EXECUTION_TIMEOUT_SECS)
    }

    /// A session with nothing observed yet, the memory ceiling
    /// `memory_limit` (bytes) and the time budget `timeout_secs` per input.
    pub fn with_limits(memory_limit: u64, timeout_secs: u64) -> (r: Self)
        ensures
            r.wf(),
            r.coverage() == Set::<u64>::empty(),
            r.crashes() == Set::<u64>::empty(),
            r.execution_count() == 0,
            r.spec_memory_limit() == memory_limit,
            r.spec_timeout_secs() == timeout_secs,
    {
        ClickHouseFuzzer {
            coverage: HashSet::new(),
            crashes: HashSet::new(),
            execution_count: 0,
            memory_limit,
            timeout_secs,
        }
    }

    /// The memory ceiling of a run, in bytes.
    pub fn memory_limit(&self) -> (r: u64)
        ensures
            r == self.spec_memory_limit(),
    {
        self.memory_limit
    }

    /// The wall-clock budget of one input, in seconds.
    pub fn timeout_secs(&self) -> (r: u64)
        ensures
            r == self.spec_timeout_secs(),
    {
        self.timeout_secs
    }

    /// Sets the memory ceiling of later runs; nothing observed changes.
    pub fn set_memory_limit(&mut self, memory_limit: u64)
        requires
            old(self).wf(),
        ensures
            final(self).wf(),
            final(self).spec_memory_limit() == memory_limit,
            final(self).spec_timeout_secs() == old(self).spec_timeout_secs(),
            final(self).coverage() == old(self).coverage(),
            final(self).crashes() == old(self).crashes(),
            final(self).execution_count() == old(self).execution_count(),
    {
        self.memory_limit = memory_limit;
    }

    /// Counts one execution of `input`. An input longer than
    /// `MAX_INPUT_LENGTH` is skipped: the execution is over, with a normal
    /// outcome, and nothing but the count changes. Otherwise `None`: the input
    /// is to be driven through the target.
    pub fn start_execution(&mut self, input: &[u8]) -> (r: Option<ExecutionResult>)
        requires
            old(self).wf(),
            old(self).execution_count() < u64::MAX,
        ensures
            final(self).wf(),
            Self::same_settings(&*old(self), &*final(self)),
            final(self).execution_count() == old(self).execution_count() + 1,
            final(self).coverage() == old(self).coverage(),
            final(self).crashes() == old(self).crashes(),
            input@.len() > MAX_INPUT_LENGTH ==> r matches Some(ExecutionResult::Normal),
            input@.len() <= MAX_INPUT_LENGTH ==> r is None,
    {
        self.execution_count = self.execution_count + 1;
        if input.len() > MAX_INPUT_LENGTH {
            return Some(ExecutionResult::Normal);
        }
        None
    }

    /// Handles a hit of the parser-entry breakpoint: records the program
    /// counter and applies the policy of the current parser state.
    pub fn handle_sql_parsing(&mut self, regs: &Registers) -> (r: Verdict)
        requires
            old(self).wf(),
        ensures
            final(self).wf(),
            Self::same_settings(&*old(self), &*final(self)),
            final(self).coverage() == old(self).coverage().insert(regs.pc),
            final(self).crashes() == old(self).crashes(),
            final(self).execution_count() == old(self).execution_count(),
            r == spec_parser_verdict(
                spec_parser_state(regs.status),
                *regs,
                old(self).spec_memory_limit(),
            ),
    {
        self.coverage.insert(regs.pc);
        let state = parser_state(regs.status);
        parser_verdict(state, regs, self.memory_limit)
    }

    /// One step of the execution loop: what to do after the executor
    /// reports `signal` with the machine in state `regs`.
    pub fn on_signal(&mut self, signal: Signal, regs: &Registers) -> (r: Drive)
        requires
            old(self).wf(),
        ensures
            final(self).wf(),
            Self::same_settings(&*old(self), &*final(self)),
            final(self).coverage() == spec_covered(old(self).coverage(), signal, *regs),
            final(self).crashes() == old(self).crashes(),
            final(self).execution_count() == old(self).execution_count(),
            r == spec_drive(signal, *regs, old(self).spec_memory_limit()),
    {
        match signal {
            Signal::Break(idx) => {
                self.coverage.insert(regs.pc);
                if regs.memory_usage > self.memory_limit {
                    return Drive::Stop(Verdict::End);
                }
                if idx == PARSER_BREAKPOINT {
                    let v = self.handle_sql_parsing(regs);
                    proof {
                        assert(self.coverage@ =~= old(self).coverage@.insert(regs.pc));
                    }
                    if v != Verdict::Continue {
                        return Drive::Stop(v);
                    }
                }
                Drive::Resume
            },
            Signal::End => Drive::Stop(Verdict::End),
            Signal::Continue => Drive::Resume,
        }
    }

    /// Builds the diagnostic text of a crash at `pc` on `input`, decoded
    /// lossily. A stack trace that could not be captured leaves its section
    /// out.
    pub fn extract_crash_info(&self, pc: u64, input: &[u8], stack_trace: Option<&[u64]>) -> (r:
        String)
        ensures
            r@ == crash_report(
                pc,
                lossy_of(input@),
                match stack_trace {
                    Some(t) => Some(t@),
                    None => None,
                },
            ),
    {
        let text = lossy_text(input);
        crash_report_text(pc, text.as_str(), stack_trace)
    }

    /// Adds a crash class; true when it was not known before.
    pub fn record_crash(&mut self, hash: u64) -> (r: bool)
        requires
            old(self).wf(),
        ensures
            final(self).wf(),
            Self::same_settings(&*old(self), &*final(self)),
            final(self).crashes() == old(self).crashes().insert(hash),
            r == !old(self).crashes().contains(hash),
            final(self).coverage() == old(self).coverage(),
            final(self).execution_count() == old(self).execution_count(),
    {
        self.crashes.insert(hash)
    }

    /// Triages a crash by the hash of its diagnostic text. Returns the hash
    /// when the crash class is new, so that its artifacts get written once;
    /// `None` when it was already known.
    pub fn handle_crash(&mut self, crash_info: &str) -> (r: Option<u64>)
        requires
            old(self).wf(),
        ensures
            final(self).wf(),
            Self::same_settings(&*old(self), &*final(self)),
            final(self).crashes().len() <= old(self).crashes().len() + 1,
            final(self).crashes() == spec_record_crash(old(self).crashes(), crash_info@),
            r == (if old(self).crashes().contains(spec_crash_hash(crash_info@)) {
                None
            } else {
                Some(spec_crash_hash(crash_info@))
            }),
            final(self).coverage() == old(self).coverage(),
            final(self).execution_count() == old(self).execution_count(),
    {
        let hash = crash_hash(crash_info);
        if self.record_crash(hash) {
            Some(hash)
        } else {
            None
        }
    }

    /// The session's counters.
    pub fn stats(&self) -> (r: FuzzingStats)
        ensures
            r.total_executions == self.execution_count(),
            r.unique_crashes == self.crashes().len() as u32,
            r.coverage_blocks == self.coverage().len(),
    {
        FuzzingStats {
            total_executions: self.execution_count,
            unique_crashes: self.crashes.len() as u32,
            coverage_blocks: self.coverage.len(),
        }
    }
}

impl Default for ClickHouseFuzzer {
    fn default() -> (r: Self)
        ensures
            r.wf(),
            r.spec_memory_limit() == MAX_MEMORY_LIMIT,
            r.spec_timeout_secs() == EXECUTION_TIMEOUT_SECS,
            r.coverage() == Set::<u64>::empty(),
            r.crashes() == Set::<u64>::empty(),
            r.execution_count() == 0,
    {
        Self::new()
    }
}

} // verus!
