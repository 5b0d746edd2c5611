use secboot::strutil::{first_token, is_space, str_eq};

#[test]
fn str_eq_compares_by_characters() {
    assert!(str_eq("powerup", "powerup"));
    assert!(str_eq("", ""));
    assert!(!str_eq("powerup", "powerdown"));
    assert!(!str_eq("ADD", "ADDX"));
    assert!(!str_eq("ADD", "add"));
}

#[test]
fn first_token_skips_leading_blanks() {
    assert_eq!(first_token("powerup"), Some("powerup"));
    assert_eq!(first_token("  powerup"), Some("powerup"));
    assert_eq!(first_token("\tload_kernel now"), Some("load_kernel"));
    assert_eq!(first_token("ADD 1 2"), Some("ADD"));
}

#[test]
fn first_token_of_blank_line_is_none() {
    assert_eq!(first_token(""), None);
    assert_eq!(first_token("   "), None);
    assert_eq!(first_token(" \t\r\n"), None);
}

#[test]
fn only_the_first_token_counts() {
    assert_eq!(first_token("shutdown everything now"), Some("shutdown"));
    assert_eq!(first_token("exit\tplease"), Some("exit"));
}

#[test]
fn blank_characters_are_exactly_the_separators() {
    assert!(is_space(' '));
    assert!(is_space('\t'));
    assert!(is_space('\r'));
    assert!(is_space('\n'));
    assert!(!is_space('a'));
    assert!(!is_space('_'));
}
