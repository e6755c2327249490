use amareleo_chain::strutil::{contains_ci, to_lower_chars, trim_chars, usize_to_string};

#[test]
fn decimal_rendering() {
    assert_eq!(usize_to_string(0), "0");
    assert_eq!(usize_to_string(9), "9");
    assert_eq!(usize_to_string(10), "10");
    assert_eq!(usize_to_string(305), "305");
    assert_eq!(usize_to_string(1000), "1000");
}

#[test]
fn contains_is_case_insensitive() {
    assert!(contains_ci("No Connected Validators", "no connected validators"));
    assert!(contains_ci("12:00 ADVANCED TO BLOCK 3", "Advanced to block"));
    assert!(!contains_ci("nothing to see", "ready"));
    assert!(contains_ci("anything", ""));
    assert!(!contains_ci("", "x"));
}

#[test]
fn lowering_folds_ascii_only() {
    let lowered: String = to_lower_chars("AbC-Z9").into_iter().collect();
    assert_eq!(lowered, "abc-z9");
}

#[test]
fn trimming_removes_both_ends() {
    let trimmed: String = trim_chars(&"  a b  ".chars().collect()).into_iter().collect();
    assert_eq!(trimmed, "a b");
    let empty: String = trim_chars(&" \t\n ".chars().collect()).into_iter().collect();
    assert_eq!(empty, "");
}
