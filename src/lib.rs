use vstd::prelude::*;

pub mod dispatch;
pub mod text;
pub mod mutations;
pub mod fuzzer;

pub use fuzzer::ClickHouseFuzzer;

verus! {

/// Counters reported at the end of a corpus pass.
pub struct FuzzingStats {
    pub total_executions: u64,
    pub unique_crashes: u32,
    pub coverage_blocks: usize,
}

/// The terminal result of driving one input through the target.
pub enum ExecutionResult {
    Normal,
    Crash(String),
    Timeout,
    MemoryLimit,
}

} // verus!
