use rust_sys_installer::cli::privilege::{resolve, validate_username, PrivilegeContext};
use rust_sys_installer::error::ProcessError;

fn refusal(raw: &str) -> String {
    match validate_username(raw) {
        Err(ProcessError::Validation { message }) => message,
        other => panic!("expected a validation error, got {:?}", other),
    }
}

#[test]
fn valid_usernames_come_back_unchanged() {
    for name in ["alice", "A", "user_1", "dev-ops", "0", "_", "-", "Z9_-a"] {
        let user = validate_username(name).unwrap();
        assert_eq!(user.as_str(), name);
    }
}

#[test]
fn username_of_thirty_two_characters_is_accepted() {
    let name = "a".repeat(32);
    assert_eq!(validate_username(&name).unwrap().as_str(), name);
}

#[test]
fn username_of_thirty_three_characters_is_refused() {
    let name = "a".repeat(33);
    assert_eq!(refusal(&name), format!("Username length invalid: {}", name));
}

#[test]
fn empty_username_is_refused() {
    assert_eq!(refusal(""), "Username length invalid: ");
}

#[test]
fn username_with_shell_syntax_is_refused() {
    for name in ["a b", "root;id", "$(id)", "a'b", "a\"b", "a/b", "a\nb", "`id`", "a|b", "a&b", "a.b"] {
        assert_eq!(refusal(name), format!("Invalid username format: {}", name));
    }
}

#[test]
fn username_with_letters_outside_ascii_is_refused() {
    assert_eq!(refusal("rené"), "Invalid username format: rené");
    assert_eq!(refusal("用户"), "Invalid username format: 用户");
}

#[test]
fn foreign_character_is_reported_before_length() {
    let name = format!("{};", "a".repeat(40));
    assert_eq!(refusal(&name), format!("Invalid username format: {}", name));
}

#[test]
fn no_signal_resolves_to_direct() {
    assert_eq!(resolve(None).unwrap(), PrivilegeContext::Direct);
}

#[test]
fn valid_signal_resolves_to_that_user() {
    match resolve(Some("alice")).unwrap() {
        PrivilegeContext::Elevated(user) => assert_eq!(user.as_str(), "alice"),
        PrivilegeContext::Direct => panic!("expected an elevated context"),
    }
}

#[test]
fn invalid_signal_is_an_error_and_never_direct() {
    match resolve(Some("alice; rm -rf /")) {
        Err(ProcessError::Validation { message }) => {
            assert_eq!(message, "Invalid username format: alice; rm -rf /")
        }
        other => panic!("expected a validation error, got {:?}", other),
    }
    assert!(matches!(resolve(Some("")), Err(ProcessError::Validation { .. })));
}
