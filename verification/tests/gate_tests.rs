use tmsadm::gate::confirm_delete_response;
use tmsadm::gate::confirmation_prompt;

#[test]
fn affirmative_answers_proceed() {
    assert!(confirm_delete_response("y"));
    assert!(confirm_delete_response("Y"));
    assert!(confirm_delete_response("yes"));
    assert!(confirm_delete_response("y\n"));
    assert!(confirm_delete_response("Yes\n"));
}

#[test]
fn leading_whitespace_is_trimmed_before_the_test() {
    assert!(confirm_delete_response(" y"));
    assert!(confirm_delete_response("\ty\n"));
    assert!(confirm_delete_response("  Yes\n"));
    assert!(confirm_delete_response("\u{000B}y"));
    assert!(confirm_delete_response("\u{000C}y"));
    assert!(confirm_delete_response("\u{0085}y"));
    assert!(confirm_delete_response("\u{00A0}y"));
    assert!(confirm_delete_response("\u{2003}Y\n"));
    assert!(confirm_delete_response("\u{3000}y"));
}

#[test]
fn other_answers_decline() {
    assert!(!confirm_delete_response("n"));
    assert!(!confirm_delete_response(""));
    assert!(!confirm_delete_response("no"));
    assert!(!confirm_delete_response("q"));
    assert!(!confirm_delete_response(" n"));
    assert!(!confirm_delete_response("\n"));
    assert!(!confirm_delete_response("   \t\n"));
}

#[test]
fn prompt_line_exact() {
    assert_eq!(
        confirmation_prompt(),
        "Confirm deletion of the above listed records (y/n):"
    );
}
