use humanbool::parse;
use humanbool::Error;

#[test]
fn yn() {
    assert!(parse("y") == Ok(true));
    assert!(parse("n") == Ok(false));
}

#[test]
fn tf() {
    assert!(parse("t") == Ok(true));
    assert!(parse("f") == Ok(false));
}

#[test]
fn _10() {
    assert!(parse("1") == Ok(true));
    assert!(parse("0") == Ok(false));
}

#[test]
fn yesno() {
    assert!(parse("yes") == Ok(true));
    assert!(parse("no") == Ok(false));
}

#[test]
fn onoff() {
    assert!(parse("on") == Ok(true));
    assert!(parse("off") == Ok(false));
}

#[test]
fn unknown() {
    assert!(parse("foo") == Err(Error::Unknown));
    assert!(parse("bar") == Err(Error::Unknown));
    assert!(parse("ye") == Err(Error::Unknown));
    assert!(parse("noway") == Err(Error::Unknown));
}

#[test]
fn empty() {
    assert!(parse("") == Err(Error::Empty));
}

#[test]
fn full_spellings() {
    assert!(parse("true") == Ok(true));
    assert!(parse("false") == Ok(false));
}

#[test]
fn no_case_folding_or_trimming() {
    assert!(parse("Y") == Err(Error::Unknown));
    assert!(parse("TRUE") == Err(Error::Unknown));
    assert!(parse("On") == Err(Error::Unknown));
    assert!(parse(" y") == Err(Error::Unknown));
    assert!(parse("y ") == Err(Error::Unknown));
}

#[test]
fn no_partial_matches() {
    assert!(parse("yess") == Err(Error::Unknown));
    assert!(parse("tr") == Err(Error::Unknown));
    assert!(parse("onn") == Err(Error::Unknown));
    assert!(parse("10") == Err(Error::Unknown));
}

#[test]
fn repeated_calls_agree() {
    assert_eq!(parse("on"), parse("on"));
    assert_eq!(parse("garbage"), parse("garbage"));
    assert_eq!(parse(""), parse(""));
}
