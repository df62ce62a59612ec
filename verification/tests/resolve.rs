use humanbool::resolve;
use humanbool::Error;

#[test]
fn absent_uses_default() {
    assert!(resolve(None, "f") == Ok(false));
    assert!(resolve(None, "1") == Ok(true));
}

#[test]
fn absent_empty_default_fails_empty() {
    assert!(resolve(None, "") == Err(Error::Empty));
}

#[test]
fn absent_unknown_default_fails_unknown() {
    assert!(resolve(None, "maybe") == Err(Error::Unknown));
}

#[test]
fn present_value_wins_over_default() {
    assert!(resolve(Some("1"), "f") == Ok(true));
    assert!(resolve(Some("off"), "y") == Ok(false));
}

#[test]
fn present_value_held_to_same_standard() {
    assert!(resolve(Some(""), "y") == Err(Error::Empty));
    assert!(resolve(Some("junk"), "y") == Err(Error::Unknown));
}
