use rustdiscordapi::permissions::permission_granted;
use rustdiscordapi::permissions::str_contains;
use rustdiscordapi::CustomError;

#[test]
fn custom_error_carries_its_message() {
    let e = CustomError::new("something went wrong");
    assert_eq!(e.message(), "something went wrong");
}

#[test]
fn custom_error_of_empty_message() {
    assert_eq!(CustomError::new("").message(), "");
}

#[test]
fn substring_search() {
    assert!(str_contains("ADMINISTRATOR,MANAGE_ROLES", "MANAGE_ROLES"));
    assert!(str_contains("abc", "abc"));
    assert!(str_contains("abc", ""));
    assert!(str_contains("aab", "ab"));
    assert!(!str_contains("abc", "abcd"));
    assert!(!str_contains("", "a"));
    assert!(!str_contains("acb", "ab"));
}

#[test]
fn permission_decision() {
    assert!(permission_granted(Some("KICK_MEMBERS,BAN_MEMBERS"), "BAN_MEMBERS"));
    assert!(!permission_granted(Some("KICK_MEMBERS"), "BAN_MEMBERS"));
    assert!(!permission_granted(None, "BAN_MEMBERS"));
}
