use clickhouse_fuzzer::dispatch::{
    check_initial_state, parser_state, parser_verdict, ParserState, Registers, Verdict,
    MAX_MEMORY_LIMIT,
};
use clickhouse_fuzzer::fuzzer::{
    classify_run_end, crash_hash, crash_report_text, EXECUTION_TIMEOUT_SECS, outcome_of, within_time_limit, Drive, RunClass, RunEnd, Signal,
    MAX_INPUT_LENGTH, PARSER_BREAKPOINT, SQL_PARSER_ENTRY,
};
use clickhouse_fuzzer::{ClickHouseFuzzer, ExecutionResult};
use std::collections::hash_map::DefaultHasher;
use std::hash::{Hash, Hasher};

const QUERY: &[u8] = b"SELECT 1 FROM t WHERE x = 1";

fn regs(status: u64) -> Registers {
    Registers {
        pc: SQL_PARSER_ENTRY,
        status,
        rsp: 0x7fff_0000,
        rbp: 0x7fff_0100,
        memory_usage: 1 << 20,
    }
}

/// Drives one input whose parser breakpoint reports `status`, as the
/// application's loop does, and returns the outcome.
fn run_once(fuzzer: &mut ClickHouseFuzzer, input: &[u8], status: u64) -> ExecutionResult {
    if let Some(done) = fuzzer.start_execution(input) {
        return done;
    }
    let r = regs(status);
    let end = match fuzzer.on_signal(Signal::Break(PARSER_BREAKPOINT), &r) {
        Drive::Stop(v) => RunEnd::Stopped(v),
        Drive::Resume => match fuzzer.on_signal(Signal::End, &r) {
            Drive::Stop(v) => RunEnd::Stopped(v),
            Drive::Resume => panic!("the end signal must stop the run"),
        },
    };
    let class = classify_run_end(&end);
    let info = if class == RunClass::Crashed {
        fuzzer.extract_crash_info(r.pc, input, None)
    } else {
        String::new()
    };
    outcome_of(class, info)
}

#[test]
fn completed_parse_is_ok() {
    let mut fuzzer = ClickHouseFuzzer::new();
    let outcome = run_once(&mut fuzzer, QUERY, 2);
    assert!(matches!(outcome, ExecutionResult::Normal));
    let stats = fuzzer.stats();
    assert_eq!(stats.total_executions, 1);
    assert_eq!(stats.unique_crashes, 0);
    assert_eq!(stats.coverage_blocks, 1);
}

#[test]
fn error_status_is_a_crash_reported_once() {
    let mut fuzzer = ClickHouseFuzzer::new();
    let outcome = run_once(&mut fuzzer, QUERY, 3);
    let info = match outcome {
        ExecutionResult::Crash(info) => info,
        _ => panic!("status 3 must give a crash"),
    };
    assert_eq!(info, "Crash at RIP: 4012b0\nInput: SELECT 1 FROM t WHERE x = 1\n");
    let first = fuzzer.handle_crash(&info);
    assert_eq!(first, Some(crash_hash(&info)));
    assert_eq!(fuzzer.stats().unique_crashes, 1);

    let again = run_once(&mut fuzzer, QUERY, 3);
    let info2 = match again {
        ExecutionResult::Crash(info) => info,
        _ => panic!("status 3 must give a crash"),
    };
    assert_eq!(info2, info);
    assert_eq!(fuzzer.handle_crash(&info2), None);
    let stats = fuzzer.stats();
    assert_eq!(stats.unique_crashes, 1);
    assert_eq!(stats.total_executions, 2);
}

#[test]
fn distinct_diagnostics_are_distinct_crashes() {
    let mut fuzzer = ClickHouseFuzzer::default();
    assert!(fuzzer.handle_crash("first").is_some());
    assert!(fuzzer.handle_crash("second").is_some());
    assert!(fuzzer.handle_crash("first").is_none());
    assert_eq!(fuzzer.stats().unique_crashes, 2);
    assert!(fuzzer.record_crash(7));
    assert!(!fuzzer.record_crash(7));
    assert_eq!(fuzzer.stats().unique_crashes, 3);
}

#[test]
fn oversized_input_is_skipped() {
    let mut fuzzer = ClickHouseFuzzer::new();
    let input = vec![b'A'; MAX_INPUT_LENGTH + 1];
    let outcome = fuzzer.start_execution(&input);
    assert!(matches!(outcome, Some(ExecutionResult::Normal)));
    let stats = fuzzer.stats();
    assert_eq!(stats.total_executions, 1);
    assert_eq!(stats.coverage_blocks, 0);
    assert_eq!(stats.unique_crashes, 0);

    let largest = vec![b'A'; MAX_INPUT_LENGTH];
    assert!(fuzzer.start_execution(&largest).is_none());
    assert_eq!(fuzzer.stats().total_executions, 2);
}

#[test]
fn every_execution_counts_once() {
    let mut fuzzer = ClickHouseFuzzer::new();
    run_once(&mut fuzzer, QUERY, 2);
    run_once(&mut fuzzer, QUERY, 3);
    run_once(&mut fuzzer, &vec![0u8; MAX_INPUT_LENGTH + 10], 2);
    run_once(&mut fuzzer, b"", 1);
    assert_eq!(fuzzer.stats().total_executions, 4);
}

#[test]
fn status_classification() {
    assert_eq!(parser_state(0), ParserState::Starting);
    assert_eq!(parser_state(1), ParserState::Parsing);
    assert_eq!(parser_state(2), ParserState::Completed);
    assert_eq!(parser_state(3), ParserState::Error);
    assert_eq!(parser_state(u64::MAX), ParserState::Error);
}

#[test]
fn state_policies() {
    let ok = regs(0);
    assert_eq!(parser_verdict(ParserState::Error, &ok, MAX_MEMORY_LIMIT), Verdict::Break(0));
    assert_eq!(parser_verdict(ParserState::Completed, &ok, MAX_MEMORY_LIMIT), Verdict::End);
    assert_eq!(parser_verdict(ParserState::Starting, &ok, MAX_MEMORY_LIMIT), Verdict::Continue);
    assert_eq!(parser_verdict(ParserState::Parsing, &ok, MAX_MEMORY_LIMIT), Verdict::Continue);

    let mut no_stack = ok;
    no_stack.rsp = 0;
    assert!(!check_initial_state(&no_stack));
    assert_eq!(parser_verdict(ParserState::Starting, &no_stack, MAX_MEMORY_LIMIT), Verdict::End);
    let mut no_frame = ok;
    no_frame.rbp = 0;
    assert_eq!(parser_verdict(ParserState::Starting, &no_frame, MAX_MEMORY_LIMIT), Verdict::End);
    assert_eq!(parser_verdict(ParserState::Error, &no_frame, MAX_MEMORY_LIMIT), Verdict::Break(0));

    let mut heavy = ok;
    heavy.memory_usage = MAX_MEMORY_LIMIT + 1;
    assert_eq!(parser_verdict(ParserState::Parsing, &heavy, MAX_MEMORY_LIMIT), Verdict::End);
    heavy.memory_usage = MAX_MEMORY_LIMIT;
    assert_eq!(parser_verdict(ParserState::Parsing, &heavy, MAX_MEMORY_LIMIT), Verdict::Continue);
}

#[test]
fn signal_steps() {
    let mut fuzzer = ClickHouseFuzzer::new();
    let r = regs(1);
    assert_eq!(fuzzer.on_signal(Signal::Continue, &r), Drive::Resume);
    assert_eq!(fuzzer.stats().coverage_blocks, 0);
    assert_eq!(fuzzer.on_signal(Signal::End, &r), Drive::Stop(Verdict::End));
    assert_eq!(fuzzer.on_signal(Signal::Break(PARSER_BREAKPOINT), &r), Drive::Resume);
    assert_eq!(fuzzer.stats().coverage_blocks, 1);

    let mut other = r;
    other.pc = 0x5000;
    other.status = 3;
    assert_eq!(fuzzer.on_signal(Signal::Break(1), &other), Drive::Resume);
    assert_eq!(fuzzer.stats().coverage_blocks, 2);

    let mut heavy = r;
    heavy.pc = 0x6000;
    heavy.status = 3;
    heavy.memory_usage = MAX_MEMORY_LIMIT + 1;
    assert_eq!(fuzzer.on_signal(Signal::Break(PARSER_BREAKPOINT), &heavy), Drive::Stop(Verdict::End));
    assert_eq!(fuzzer.stats().coverage_blocks, 3);

    assert_eq!(
        fuzzer.on_signal(Signal::Break(PARSER_BREAKPOINT), &regs(3)),
        Drive::Stop(Verdict::Break(0))
    );
    assert_eq!(fuzzer.handle_sql_parsing(&regs(2)), Verdict::End);
    assert_eq!(fuzzer.stats().coverage_blocks, 3);
}

#[test]
fn run_end_classes() {
    assert_eq!(classify_run_end(&RunEnd::Stopped(Verdict::End)), RunClass::Clean);
    assert_eq!(classify_run_end(&RunEnd::Stopped(Verdict::Break(0))), RunClass::Crashed);
    assert_eq!(
        classify_run_end(&RunEnd::Failed("vm exited: SIGSEGV at 0x10".to_string())),
        RunClass::Crashed
    );
    assert_eq!(
        classify_run_end(&RunEnd::Failed("execution timeout after 10s".to_string())),
        RunClass::TimedOut
    );
    assert_eq!(
        classify_run_end(&RunEnd::Failed("SIGILL".to_string())),
        RunClass::Clean
    );
    assert!(matches!(outcome_of(RunClass::TimedOut, String::new()), ExecutionResult::Timeout));
    assert!(matches!(outcome_of(RunClass::Clean, String::new()), ExecutionResult::Normal));
}

#[test]
fn crash_report_from_bytes() {
    let fuzzer = ClickHouseFuzzer::new();
    let trace = [0x10u64, 0xabc];
    let info = fuzzer.extract_crash_info(0x4012b0, b"SELECT", Some(&trace));
    assert_eq!(info, "Crash at RIP: 4012b0\nInput: SELECT\nStack trace:\n  0x10\n  0xabc\n");
    let empty = fuzzer.extract_crash_info(0, b"", Some(&[]));
    assert_eq!(empty, "Crash at RIP: 0\nInput: \nStack trace:\n");
    let lossy = fuzzer.extract_crash_info(255, b"a\xffb", None);
    assert_eq!(lossy, "Crash at RIP: ff\nInput: a\u{fffd}b\n");
}

#[test]
fn crash_hash_matches_str_hashing() {
    let mut hasher = DefaultHasher::new();
    "Crash at RIP: 0\n".hash(&mut hasher);
    assert_eq!(crash_hash("Crash at RIP: 0\n"), hasher.finish());
    assert_eq!(crash_hash("abc"), crash_hash("abc"));
    assert_ne!(crash_hash("abc"), crash_hash("abd"));
}

#[test]
fn time_limit() {
    assert!(within_time_limit(1000, 0));
    assert!(within_time_limit(9, 10));
    assert!(!within_time_limit(10, 10));
    assert!(!within_time_limit(11, 10));
}

#[test]
fn memory_ceiling_is_configurable() {
    let mut fuzzer = ClickHouseFuzzer::with_limits(1000, 3);
    assert_eq!(fuzzer.memory_limit(), 1000);
    assert_eq!(fuzzer.timeout_secs(), 3);
    let mut r = regs(1);
    r.memory_usage = 1001;
    assert_eq!(fuzzer.on_signal(Signal::Break(PARSER_BREAKPOINT), &r), Drive::Stop(Verdict::End));
    r.memory_usage = 1000;
    assert_eq!(fuzzer.on_signal(Signal::Break(PARSER_BREAKPOINT), &r), Drive::Resume);
    assert_eq!(fuzzer.stats().unique_crashes, 0);

    fuzzer.set_memory_limit(500);
    assert_eq!(fuzzer.memory_limit(), 500);
    assert_eq!(fuzzer.timeout_secs(), 3);
    assert_eq!(fuzzer.on_signal(Signal::Break(PARSER_BREAKPOINT), &r), Drive::Stop(Verdict::End));
    assert_eq!(parser_verdict(ParserState::Parsing, &r, 999), Verdict::End);
    assert_eq!(parser_verdict(ParserState::Parsing, &r, 1000), Verdict::Continue);
}

#[test]
fn default_limits() {
    let fuzzer = ClickHouseFuzzer::new();
    assert_eq!(fuzzer.memory_limit(), MAX_MEMORY_LIMIT);
    assert_eq!(fuzzer.memory_limit(), 8 * 1024 * 1024 * 1024);
    assert_eq!(fuzzer.timeout_secs(), EXECUTION_TIMEOUT_SECS);
    assert_eq!(fuzzer.timeout_secs(), 10);
    assert_eq!(ClickHouseFuzzer::default().memory_limit(), MAX_MEMORY_LIMIT);
}

#[test]
fn report_from_decoded_text() {
    let trace = [0xdeadbeefu64];
    assert_eq!(
        crash_report_text(0x1f, "SELECT \u{fffd}", Some(&trace)),
        "Crash at RIP: 1f\nInput: SELECT \u{fffd}\nStack trace:\n  0xdeadbeef\n"
    );
    assert_eq!(
        crash_report_text(u64::MAX, "", None),
        "Crash at RIP: ffffffffffffffff\nInput: \n"
    );
}
