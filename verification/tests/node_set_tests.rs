use amareleo_chain::config::{ChainArgs, NodeArgs};
use amareleo_chain::node::StartOutcome;
use amareleo_chain::node_set::{node_name, NodeSet};

fn fleet(n: usize) -> NodeSet {
    let mut nodes = Vec::new();
    for i in 0..n {
        nodes.push(NodeArgs {
            node: vec!["start".to_string()],
            started: format!("phrase {i}"),
        });
    }
    NodeSet::new(ChainArgs { snarkos: nodes })
}

#[test]
fn nodes_named_by_position() {
    let set = fleet(4);
    assert_eq!(set.len(), 4);
    for i in 0..4 {
        assert_eq!(set.nodes[i].name, format!("node{i}"));
        assert_eq!(set.nodes[i].ready_phrase, format!("phrase {i}"));
        assert!(!set.nodes[i].running);
        assert!(set.nodes[i].silent);
    }
    assert_eq!(node_name(7), "node7");
    assert_eq!(node_name(10), "node10");
}

#[test]
fn startup_order_is_ascending() {
    let set = fleet(4);
    assert_eq!(set.start_order(), vec![0, 1, 2, 3]);
}

#[test]
fn shutdown_order_is_descending() {
    let set = fleet(4);
    assert_eq!(set.stop_order(), vec![3, 2, 1, 0]);
}

#[test]
fn next_to_start_walks_forward() {
    let mut set = fleet(3);
    assert_eq!(set.next_to_start(), Some(0));
    assert_eq!(set.nodes[0].start_commit(StartOutcome::Ready), Ok(()));
    assert_eq!(set.next_to_start(), Some(1));
    assert_eq!(set.nodes[1].start_commit(StartOutcome::Ready), Ok(()));
    assert_eq!(set.nodes[2].start_commit(StartOutcome::Ready), Ok(()));
    assert_eq!(set.next_to_start(), None);
}

#[test]
fn full_startup_is_ascending_and_shutdown_reverses_it() {
    let mut set = fleet(4);
    let mut order = Vec::new();
    while let Some(i) = set.next_to_start() {
        order.push(i);
        assert_eq!(set.nodes[i].start_commit(StartOutcome::Ready), Ok(()));
    }
    assert_eq!(order, vec![0, 1, 2, 3]);
    assert_eq!(set.stop_order(), vec![3, 2, 1, 0]);
}

#[test]
fn show_only_leaves_one_unsilenced() {
    let mut set = fleet(4);
    set.stdout_show(1);
    set.stdout_show(2);
    for i in 0..4 {
        assert_eq!(set.nodes[i].silent, i != 2);
    }
}

#[test]
fn silent_all_silences_everyone() {
    let mut set = fleet(4);
    set.stdout_show(3);
    set.stdout_silent();
    for i in 0..4 {
        assert!(set.nodes[i].silent);
    }
}

#[test]
fn storage_ownership_follows_override() {
    let mut set = fleet(1);
    assert!(!set.should_clear());
    set.set_storage("/home/user/.amareleo/chain".to_string(), true);
    assert!(set.should_clear());
    assert_eq!(set.chain_path, "/home/user/.amareleo/chain");
    let mut overridden = fleet(1);
    overridden.set_storage("/data/ledger".to_string(), false);
    assert!(!overridden.should_clear());
    assert_eq!(overridden.chain_path, "/data/ledger");
}
