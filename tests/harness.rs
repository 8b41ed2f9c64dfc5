use forge_testsuite::call::{
    classify, diagnostic_lines, reported, CallOutcome, Contract, ExecutionResult, LogEntry,
};
use forge_testsuite::error::HarnessError;
use forge_testsuite::profile::{Address, EnvironmentProfile, Word, DEV_CHAIN_ID, MEMORY_LIMIT};
use forge_testsuite::registry::{Artifact, FunctionEntry, Registry};
use forge_testsuite::remapping::{override_remapping, resolve_remappings, ConfigError, Remapping};
use forge_testsuite::runner::Runner;

fn remap(name: &str, path: &str) -> Remapping {
    Remapping { name: name.to_string(), path: path.to_string() }
}

fn artifact(name: &str, functions: &[(&str, u32)]) -> Artifact {
    Artifact {
        name: name.to_string(),
        functions: functions
            .iter()
            .map(|(n, s)| FunctionEntry { name: n.to_string(), selector: *s })
            .collect(),
        deploy_code: vec![0x60, 0x80],
        libraries: vec![],
    }
}

fn log(byte: u8) -> LogEntry {
    LogEntry { address: Address { high: 1, low: 2 }, topics: vec![vec![byte]], data: vec![byte] }
}

#[test]
fn file_entry_replaces_default_alias() {
    let r = resolve_remappings("/root", vec![remap("a", "/x")], "a=y").unwrap();
    assert_eq!(r, vec![remap("a", "/root/y")]);
}

#[test]
fn file_entries_apply_in_line_order() {
    let defaults = vec![remap("a", "/x"), remap("b", "/z"), remap("a", "/w")];
    let r = resolve_remappings("/root/", defaults, "c=lib/c\r\na=one\na=two\n").unwrap();
    assert_eq!(
        r,
        vec![remap("b", "/z"), remap("c", "/root/lib/c"), remap("a", "/root/two")]
    );
}

#[test]
fn split_at_first_separator_and_absolute_path_kept() {
    let r = resolve_remappings("/p", vec![], "x=a=b\ny=/abs/dir").unwrap();
    assert_eq!(r, vec![remap("x", "/p/a=b"), remap("y", "/abs/dir")]);
}

#[test]
fn empty_alias_file_keeps_defaults() {
    let r = resolve_remappings("/p", vec![remap("a", "/x")], "").unwrap();
    assert_eq!(r, vec![remap("a", "/x")]);
}

#[test]
fn line_without_separator_is_config_error() {
    let r = resolve_remappings("/p", vec![], "a=b\nbroken\nc");
    assert_eq!(r, Err(ConfigError::MissingSeparator { index: 1 }));
    let r = resolve_remappings("/p", vec![], "a=b\n\nc=d");
    assert_eq!(r, Err(ConfigError::MissingSeparator { index: 1 }));
}

#[test]
fn override_remapping_drops_every_match() {
    let mut set = vec![remap("a", "/1"), remap("b", "/2"), remap("a", "/3")];
    override_remapping(&mut set, remap("a", "/4"));
    assert_eq!(set, vec![remap("b", "/2"), remap("a", "/4")]);
}

#[test]
fn deterministic_profile_values() {
    let p = EnvironmentProfile::deterministic();
    let sender = Address { high: 0x1804c8ab, low: 0x1f12e6bbf3894d4083f33e07309d1f38 };
    assert_eq!(p.sender, sender);
    assert_eq!(p.tx_origin, sender);
    assert_eq!(p.initial_balance, Word { high: u128::MAX, low: u128::MAX });
    assert_eq!(p.gas_limit, u64::MAX);
    assert_eq!(p.chain_id, 31337);
    assert_eq!(DEV_CHAIN_ID, 31337);
    assert_eq!(p.block_number, 1);
    assert_eq!(p.block_timestamp, 1);
    assert_eq!(p.code_size_limit, None);
    assert_eq!(p.memory_limit, 1u64 << 24);
    assert_eq!(MEMORY_LIMIT, 16 * 1024 * 1024);
    assert!(p.ffi);
    assert_eq!(p, EnvironmentProfile::deterministic());
}

#[test]
fn registry_rejects_duplicate_names() {
    let r = Registry::new(vec![artifact("A", &[]), artifact("B", &[]), artifact("A", &[])]);
    match r {
        Err(HarnessError::DuplicateContract { name }) => assert_eq!(name, "A"),
        _ => panic!("duplicate names must be refused"),
    }
}

#[test]
fn registry_finds_by_name() {
    let reg = Registry::new(vec![artifact("A", &[]), artifact("Counter", &[])]).unwrap();
    assert_eq!(reg.len(), 2);
    assert_eq!(reg.find("Counter"), Some(1));
    assert_eq!(reg.find("Count"), None);
    assert_eq!(reg.artifact(1).name, "Counter");
}

#[test]
fn deploy_unknown_contract_leaves_runner_unchanged() {
    let reg = Registry::new(vec![artifact("Counter", &[])]).unwrap();
    let mut runner = Runner::new(reg, Some("http://node".to_string()));
    match runner.deploy("DoesNotExist") {
        Err(HarnessError::ContractNotFound { name }) => assert_eq!(name, "DoesNotExist"),
        _ => panic!("unknown contract must not deploy"),
    }
    assert_eq!(runner.fork, Some("http://node".to_string()));
    assert_eq!(runner.registry.len(), 1);
    assert_eq!(runner.profile, EnvironmentProfile::deterministic());
    assert!(!runner.coverage);
}

#[test]
fn deploy_takes_fork_source_once() {
    let reg = Registry::new(vec![artifact("A", &[]), artifact("Counter", &[])]).unwrap();
    let mut runner = Runner::new(reg, Some("http://node".to_string()));
    let first = runner.deploy("Counter").unwrap();
    assert_eq!(first.contract, 1);
    assert_eq!(first.fork, Some("http://node".to_string()));
    assert_eq!(first.sender, runner.profile.sender);
    assert_eq!(first.initial_balance, Word { high: u128::MAX, low: u128::MAX });
    assert_eq!(first.gas_limit, u64::MAX);
    assert!(first.tracing);
    assert!(!first.coverage);
    assert_eq!(runner.fork, None);
    let second = runner.deploy("A").unwrap();
    assert_eq!(second.contract, 0);
    assert_eq!(second.fork, None);
}

#[test]
fn call_picks_first_overload() {
    let c = Contract {
        address: Address { high: 0, low: 42 },
        sender: Address { high: 7, low: 8 },
        functions: vec![
            FunctionEntry { name: "get".to_string(), selector: 1 },
            FunctionEntry { name: "increment".to_string(), selector: 2 },
            FunctionEntry { name: "increment".to_string(), selector: 3 },
        ],
    };
    let req = c.call("increment").unwrap();
    assert_eq!(req.function, 1);
    assert_eq!(req.selector, 2);
    assert_eq!(req.caller, Address { high: 7, low: 8 });
    assert_eq!(req.to, Address { high: 0, low: 42 });
    assert_eq!(req.value, 0);
    match c.call("missing") {
        Err(HarnessError::FunctionNotFound { name }) => assert_eq!(name, "missing"),
        _ => panic!("missing function must be an error"),
    }
}

#[test]
fn revert_surfaces_reason_gas_and_logs() {
    let r = classify(ExecutionResult::Reverted {
        reason: Some("nope".to_string()),
        gas_used: 21345,
        logs: vec![log(1)],
    });
    match r {
        Err(HarnessError::ExecutionRevert { reason, gas_used, logs }) => {
            assert_eq!(reason, Some("nope".to_string()));
            assert!(gas_used > 0);
            assert_eq!(gas_used, 21345);
            assert_eq!(logs, vec![log(1)]);
        }
        _ => panic!("a revert must surface as ExecutionRevert"),
    }
}

#[test]
fn returned_call_keeps_logs_in_emission_order() {
    let r = classify(ExecutionResult::Returned { gas_used: 500, logs: vec![log(1), log(2)] });
    match r {
        Ok(CallOutcome { gas_used, logs }) => {
            assert_eq!(gas_used, 500);
            assert_eq!(logs, vec![log(1), log(2)]);
        }
        _ => panic!("a returned call is an outcome"),
    }
}

#[test]
fn other_results_classify_as_errors() {
    match classify(ExecutionResult::Fault { reason: "bad opcode".to_string() }) {
        Err(HarnessError::Execution { reason }) => assert_eq!(reason, "bad opcode"),
        _ => panic!(),
    }
    match classify(ExecutionResult::Unencodable { reason: "type".to_string() }) {
        Err(HarnessError::ArgumentEncoding { reason }) => assert_eq!(reason, "type"),
        _ => panic!(),
    }
    let r = classify(ExecutionResult::Undecodable {
        reason: "shape".to_string(),
        gas_used: 3,
        logs: vec![],
    });
    match r {
        Err(HarnessError::ResultDecoding { reason }) => assert_eq!(reason, "shape"),
        _ => panic!(),
    }
}

#[test]
fn reported_only_where_the_call_ran() {
    let ret = ExecutionResult::Returned { gas_used: 9, logs: vec![log(3)] };
    let (gas, logs) = reported(&ret).unwrap();
    assert_eq!(gas, 9);
    assert_eq!(logs, &vec![log(3)]);
    let rev = ExecutionResult::Reverted { reason: None, gas_used: 4, logs: vec![] };
    assert_eq!(reported(&rev).unwrap().0, 4);
    assert!(reported(&ExecutionResult::Fault { reason: "x".to_string() }).is_none());
    assert!(reported(&ExecutionResult::Unencodable { reason: "x".to_string() }).is_none());
}

#[test]
fn diagnostics_render_logs_between_markers() {
    let lines = diagnostic_lines("emit", 21000, vec!["L1".to_string(), "L2".to_string()]);
    assert_eq!(
        lines,
        vec![
            "Gas used emit: 21000".to_string(),
            "=========== Start Logs emit ===========".to_string(),
            "L1".to_string(),
            "L2".to_string(),
            "=========== End Logs emit ===========".to_string(),
        ]
    );
}

#[test]
fn diagnostics_gas_edge_values() {
    assert_eq!(diagnostic_lines("f", 0, vec![])[0], "Gas used f: 0");
    assert_eq!(diagnostic_lines("f", 9, vec![])[0], "Gas used f: 9");
    assert_eq!(diagnostic_lines("f", 10, vec![])[0], "Gas used f: 10");
    assert_eq!(
        diagnostic_lines("f", u64::MAX, vec![])[0],
        "Gas used f: 18446744073709551615"
    );
    assert_eq!(diagnostic_lines("f", 7, vec![]).len(), 3);
}

#[test]
fn two_sessions_agree_on_configuration() {
    let text = "ds-test/=lib/ds-test/src/\nforge-std/=lib/forge-std/src/\n";
    let first = resolve_remappings("/proj", vec![remap("ds-test/", "/old")], text).unwrap();
    let second = resolve_remappings("/proj", vec![remap("ds-test/", "/old")], text).unwrap();
    assert_eq!(first, second);
    assert_eq!(
        first,
        vec![
            remap("ds-test/", "/proj/lib/ds-test/src/"),
            remap("forge-std/", "/proj/lib/forge-std/src/"),
        ]
    );
    let a = Runner::new(Registry::new(vec![artifact("C", &[])]).unwrap(), None);
    let b = Runner::new(Registry::new(vec![artifact("C", &[])]).unwrap(), None);
    assert_eq!(a.profile, b.profile);
}
