use shellm::gate::{confirm_execution, is_blank_line};

#[test]
fn gate_executes_on_lowercase_e() {
    assert!(confirm_execution("e\n"));
}

#[test]
fn gate_executes_on_uppercase_e() {
    assert!(confirm_execution("E\n"));
}

#[test]
fn gate_executes_on_padded_e() {
    assert!(confirm_execution("  e  \n"));
}

#[test]
fn gate_aborts_on_a() {
    assert!(!confirm_execution("a\n"));
}

#[test]
fn gate_aborts_on_empty_input() {
    assert!(!confirm_execution(""));
}

#[test]
fn gate_aborts_on_yes() {
    assert!(!confirm_execution("yes\n"));
}

#[test]
fn gate_aborts_on_blank_line() {
    assert!(!confirm_execution(" \t \n"));
}

#[test]
fn gate_aborts_on_longer_word_starting_with_e() {
    assert!(!confirm_execution("execute\n"));
}

#[test]
fn blank_lines_are_recognised() {
    assert!(is_blank_line(""));
    assert!(is_blank_line("   \n"));
    assert!(is_blank_line("\t\r\n"));
    assert!(!is_blank_line(" x \n"));
}
