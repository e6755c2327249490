use amareleo_chain::console::{format_banner_line, format_report_line, ConsoleManager};

#[test]
fn banner_line_pads_to_width() {
    let line = format_banner_line("Ready");
    assert_eq!(line.len(), 501);
    assert!(line.starts_with(" Ready"));
    assert!(line.ends_with(' '));
    let long = "x".repeat(600);
    assert_eq!(format_banner_line(&long), format!(" {long}"));
}

#[test]
fn report_line_pads_name_and_trims_line() {
    assert_eq!(format_report_line("node0", "hello \n"), "node0      | hello");
    assert_eq!(format_report_line("main", "x"), "main       | x");
}

#[test]
fn report_line_keeps_long_names_whole() {
    assert_eq!(
        format_report_line("supervisor-a", "y"),
        "supervisor-a | y"
    );
}

#[test]
fn report_line_keeps_inner_whitespace() {
    assert_eq!(
        format_report_line("node1", "  a b  "),
        "node1      |   a b"
    );
}

#[test]
fn rows_cycle_through_region() {
    let mut console = ConsoleManager::start(3);
    assert_eq!(console.position, 0);
    assert_eq!(console.size, 3);
    console.report("node0", "one");
    assert_eq!(console.position, 1);
    console.report("node0", "two");
    console.report("node0", "three");
    assert_eq!(console.position, 0);
}

#[test]
fn batch_advances_once_per_line() {
    let mut console = ConsoleManager::start(3);
    let lines: Vec<String> = vec![
        "a".to_string(),
        "b".to_string(),
        "c".to_string(),
        "d".to_string(),
        "e".to_string(),
    ];
    let status = "starting".to_string();
    console.batch_report("main", Some(&status), &lines);
    assert_eq!(console.position, 2);
}

#[test]
fn status_leaves_log_row_alone() {
    let mut console = ConsoleManager::start(5);
    console.report("node0", "one");
    let before = console.position;
    console.status("all good");
    assert_eq!(console.position, before);
}

#[test]
fn close_gives_raw_mode_back() {
    let mut console = ConsoleManager::start(5);
    console.close();
    assert!(!console.raw_mode);
    console.close();
    assert!(!console.raw_mode);
}
