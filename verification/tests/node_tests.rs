use amareleo_chain::chain_errors::ChainErrors;
use amareleo_chain::config::NodeArgs;
use amareleo_chain::node::{ScanStep, SnarkNode, StartOutcome};

fn sample_node(phrase: &str) -> SnarkNode {
    let cfg = NodeArgs {
        node: vec!["start".to_string()],
        started: phrase.to_string(),
    };
    SnarkNode::new(cfg, "node0")
}

#[test]
fn new_node_is_idle_and_silent() {
    let node = sample_node("ready");
    assert!(!node.is_running());
    assert!(!node.has_stdout_monitor());
    assert!(node.silent);
    assert_eq!(node.name, "node0");
}

#[test]
fn stop_without_process_fails_without_side_effects() {
    let mut node = sample_node("ready");
    assert_eq!(node.end(), Err(ChainErrors::ProcessNotRunning));
    assert!(!node.is_running());
    assert!(!node.has_stdout_monitor());
}

#[test]
fn start_guard_refuses_second_start() {
    let mut node = sample_node("ready");
    assert_eq!(node.start_guard(), Ok(()));
    assert_eq!(node.start_commit(StartOutcome::Ready), Ok(()));
    assert_eq!(node.start_guard(), Err(ChainErrors::ProcessAlreadyStarted));
}

#[test]
fn start_commit_ready_holds_process_and_monitor() {
    let mut node = sample_node("ready");
    assert_eq!(node.start_commit(StartOutcome::Ready), Ok(()));
    assert!(node.is_running());
    assert!(node.has_stdout_monitor());
}

#[test]
fn start_commit_no_stdout_fails() {
    let mut node = sample_node("ready");
    assert_eq!(node.start_commit(StartOutcome::NoStdout), Err(ChainErrors::NoStdout));
    assert!(!node.is_running());
    assert!(!node.has_stdout_monitor());
}

#[test]
fn scan_timeout_maps_to_cannot_find_ready() {
    let mut node = sample_node("all systems go");
    assert_eq!(node.scan_step("still booting", true), ScanStep::Timeout);
    assert_eq!(
        node.start_commit(StartOutcome::NotReady),
        Err(ChainErrors::CannotFindReady)
    );
    assert!(!node.is_running());
}

#[test]
fn scan_finds_phrase_case_insensitively() {
    let node = sample_node("Advanced to block");
    assert_eq!(
        node.scan_step("10:03 ADVANCED TO BLOCK 5", false),
        ScanStep::Ready
    );
    assert_eq!(
        node.scan_step("10:03 advanced to block 5", true),
        ScanStep::Ready
    );
    assert_eq!(node.scan_step("nothing yet", false), ScanStep::Continue);
}

#[test]
fn stop_after_start_tears_both_down() {
    let mut node = sample_node("ready");
    assert_eq!(node.start_commit(StartOutcome::Ready), Ok(()));
    assert_eq!(node.end(), Ok(()));
    assert!(!node.is_running());
    assert!(!node.has_stdout_monitor());
    assert_eq!(node.end(), Err(ChainErrors::ProcessNotRunning));
}

#[test]
fn stdout_show_flips_silence() {
    let mut node = sample_node("ready");
    node.stdout_show(true);
    assert!(!node.silent);
    node.stdout_show(false);
    assert!(node.silent);
}
