use amareleo_chain::chain_errors::ChainErrors;
use amareleo_chain::config::{
    default_node_args, file_exists, folder_exists, home_dir_check, init_overwrite_allowed,
    ChainArgs, HomeCheck, NodeArgs, NODE0_START_COMPLETE, NODE1_START_COMPLETE,
    NODE2_START_COMPLETE, NODE3_START_COMPLETE,
};

fn node(args: &[&str], started: &str) -> NodeArgs {
    NodeArgs {
        node: args.iter().map(|a| a.to_string()).collect(),
        started: started.to_string(),
    }
}

#[test]
fn default_args_node0() {
    let args = default_node_args(0, false);
    assert_eq!(args, vec!["start", "--nodisplay", "--validator"]);
}

#[test]
fn default_args_other_node_gets_norest() {
    let args = default_node_args(2, false);
    assert_eq!(args, vec!["start", "--nodisplay", "--validator", "--norest"]);
}

#[test]
fn default_args_with_dev_marker() {
    let args = default_node_args(2, true);
    assert_eq!(
        args,
        vec!["start", "--nodisplay", "--validator", "--norest", "--dev", "2"]
    );
}

#[test]
fn default_config_has_four_nodes_with_phrases() {
    let cfg = ChainArgs::default_config();
    assert_eq!(cfg.snarkos.len(), 4);
    assert_eq!(cfg.snarkos[0].started, NODE0_START_COMPLETE);
    assert_eq!(cfg.snarkos[1].started, NODE1_START_COMPLETE);
    assert_eq!(cfg.snarkos[2].started, NODE2_START_COMPLETE);
    assert_eq!(cfg.snarkos[3].started, NODE3_START_COMPLETE);
    assert_eq!(cfg.snarkos[0].node, vec!["start", "--nodisplay", "--validator"]);
    assert_eq!(
        cfg.snarkos[3].node,
        vec!["start", "--nodisplay", "--validator", "--norest"]
    );
}

#[test]
fn empty_config_rejected() {
    let cfg = ChainArgs { snarkos: Vec::new() };
    match cfg.validated() {
        Err(e) => assert_eq!(e, ChainErrors::ConfigNodesNotFound),
        Ok(_) => panic!("an empty fleet must be rejected"),
    }
}

#[test]
fn eleven_nodes_rejected() {
    let mut nodes = Vec::new();
    for _ in 0..11 {
        nodes.push(node(&["start"], "ready"));
    }
    let cfg = ChainArgs { snarkos: nodes };
    match cfg.validated() {
        Err(e) => assert_eq!(e, ChainErrors::ConfigTooManyNodes),
        Ok(_) => panic!("a fleet of eleven must be rejected"),
    }
}

#[test]
fn ten_nodes_accepted() {
    let mut nodes = Vec::new();
    for _ in 0..10 {
        nodes.push(node(&["start"], "ready"));
    }
    let cfg = ChainArgs { snarkos: nodes };
    assert!(cfg.validated().is_ok());
}

#[test]
fn whitespace_argument_rejected() {
    let cfg = ChainArgs {
        snarkos: vec![node(&["start"], "a"), node(&["--network 1"], "b")],
    };
    match cfg.validated() {
        Err(e) => assert_eq!(
            e,
            ChainErrors::ConfigRemoveArgSpace("--network 1".to_string())
        ),
        Ok(_) => panic!("an argument with embedded whitespace must be rejected"),
    }
}

#[test]
fn edge_whitespace_argument_rejected() {
    let cfg = ChainArgs {
        snarkos: vec![node(&["  --norest  "], "a")],
    };
    match cfg.validated() {
        Err(e) => assert_eq!(
            e,
            ChainErrors::ConfigRemoveArgSpace("  --norest  ".to_string())
        ),
        Ok(_) => panic!("an argument with leading or trailing whitespace must be rejected"),
    }
}

#[test]
fn leading_whitespace_argument_rejected() {
    let cfg = ChainArgs {
        snarkos: vec![node(&[" x"], "a")],
    };
    match cfg.validated() {
        Err(e) => assert_eq!(e, ChainErrors::ConfigRemoveArgSpace(" x".to_string())),
        Ok(_) => panic!("a whitespace-bearing argument must be rejected"),
    }
}

#[test]
fn all_whitespace_argument_rejected() {
    let cfg = ChainArgs {
        snarkos: vec![node(&["   "], "a")],
    };
    match cfg.validated() {
        Err(e) => assert_eq!(e, ChainErrors::ConfigRemoveArgSpace("   ".to_string())),
        Ok(_) => panic!("an all-whitespace argument must be rejected"),
    }
}

#[test]
fn dev_argument_rejected_case_insensitively() {
    let cfg = ChainArgs {
        snarkos: vec![node(&["start", "--DEV"], "a")],
    };
    match cfg.validated() {
        Err(e) => assert_eq!(e, ChainErrors::ConfigRemoveDevArg("--DEV".to_string())),
        Ok(_) => panic!("the reserved development-mode flag must be rejected"),
    }
}

#[test]
fn whitespace_reported_before_dev() {
    let cfg = ChainArgs {
        snarkos: vec![node(&["--dev"], "a"), node(&["bad arg"], "b")],
    };
    match cfg.validated() {
        Err(ChainErrors::ConfigRemoveArgSpace(p)) => assert_eq!(p, "bad arg"),
        other => panic!("expected the whitespace error first, got {other:?}"),
    }
}

#[test]
fn first_offending_argument_reported() {
    let cfg = ChainArgs {
        snarkos: vec![node(&["ok", "one bad"], "a"), node(&["two bad"], "b")],
    };
    match cfg.validated() {
        Err(ChainErrors::ConfigRemoveArgSpace(p)) => assert_eq!(p, "one bad"),
        other => panic!("expected the first whitespace error, got {other:?}"),
    }
}

#[test]
fn validated_appends_dev_and_index() {
    let cfg = ChainArgs {
        snarkos: vec![
            node(&["start"], "phrase a"),
            node(&["start", "--norest"], "phrase b"),
        ],
    };
    let out = cfg.validated().expect("a clean fleet must be accepted");
    assert_eq!(out.snarkos.len(), 2);
    assert_eq!(out.snarkos[0].node, vec!["start", "--dev", "0"]);
    assert_eq!(out.snarkos[1].node, vec!["start", "--norest", "--dev", "1"]);
    assert_eq!(out.snarkos[0].started, "phrase a");
    assert_eq!(out.snarkos[1].started, "phrase b");
}

#[test]
fn folder_exists_checks_directory() {
    assert_eq!(
        folder_exists("/tmp/x".to_string(), true, true),
        Some("/tmp/x".to_string())
    );
    assert_eq!(folder_exists("/tmp/x".to_string(), true, false), None);
    assert_eq!(folder_exists("/tmp/x".to_string(), false, false), None);
}

#[test]
fn file_exists_checks_file() {
    assert_eq!(
        file_exists("cfg.json".to_string(), true, true),
        Some("cfg.json".to_string())
    );
    assert_eq!(file_exists("cfg.json".to_string(), false, true), None);
    assert_eq!(file_exists("cfg.json".to_string(), true, false), None);
}

#[test]
fn home_dir_check_reports_each_failure() {
    assert_eq!(home_dir_check(None, false, false), HomeCheck::Missing);
    assert_eq!(
        home_dir_check(Some("/home/user".to_string()), false, false),
        HomeCheck::NotFound
    );
    assert_eq!(
        home_dir_check(Some("/home/user".to_string()), true, false),
        HomeCheck::NotADirectory
    );
    assert_eq!(
        home_dir_check(Some("/home/user".to_string()), true, true),
        HomeCheck::Usable("/home/user".to_string())
    );
}

#[test]
fn init_overwrite_needs_force() {
    assert!(init_overwrite_allowed(false, false));
    assert!(init_overwrite_allowed(true, false));
    assert!(init_overwrite_allowed(true, true));
    assert!(!init_overwrite_allowed(false, true));
}
