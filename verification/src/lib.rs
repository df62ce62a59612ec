//! Classification of human-written boolean strings.
//!
//! A small, fixed set of exact spellings is recognized as meaning true
//! (`"1"`, `"y"`, `"yes"`, `"on"`, `"t"`, `"true"`) or false (`"0"`, `"n"`,
//! `"no"`, `"off"`, `"f"`, `"false"`). Matching is case-sensitive, with no
//! trimming and no partial matches. Any other input fails to classify: the
//! empty string with [`Error::Empty`], everything else with
//! [`Error::Unknown`].
//!
//! On top of the classifier, [`resolve`] settles which of two strings is in
//! effect — a looked-up value when one is present, a caller-supplied default
//! otherwise — and classifies it. The lookup itself (for instance reading a
//! process environment variable) is left to the host program, which hands
//! the outcome in as an `Option`; a value that is present but not valid
//! text has no boolean reading, so the host is expected to abort rather
//! than call in with it.

use vstd::prelude::*;

verus! {

/// Why a string could not be classified as a boolean.
#[derive(Debug, PartialEq, Eq, Structural)]
pub enum Error {
    /// The input was the empty string: nothing was configured.
    Empty,
    /// The input was non-empty but is not a recognized spelling.
    Unknown,
}

/// The exact spellings recognized as meaning true.
pub open spec fn is_true_spelling(s: Seq<char>) -> bool {
    s == "1"@ || s == "y"@ || s == "yes"@ || s == "on"@ || s == "t"@ || s == "true"@
}

/// The exact spellings recognized as meaning false.
pub open spec fn is_false_spelling(s: Seq<char>) -> bool {
    s == "0"@ || s == "n"@ || s == "no"@ || s == "off"@ || s == "f"@ || s == "false"@
}

/// What [`parse`] returns for any input string: a recognized spelling maps
/// to its boolean, the empty string fails with [`Error::Empty`], and any
/// other string fails with [`Error::Unknown`].
pub open spec fn classify(s: Seq<char>) -> Result<bool, Error> {
    if is_true_spelling(s) {
        Ok(true)
    } else if is_false_spelling(s) {
        Ok(false)
    } else if s.len() == 0 {
        Err(Error::Empty)
    } else {
        Err(Error::Unknown)
    }
}

/// What [`resolve`] returns: the looked-up value when one is present, the
/// default otherwise, classified either way by [`classify`].
pub open spec fn resolution(value: Option<Seq<char>>, default: Seq<char>) -> Result<bool, Error> {
    match value {
        Some(v) => classify(v),
        None => classify(default),
    }
}

/// Character-by-character string equality.
fn str_eq(a: &str, b: &str) -> (r: bool)
    ensures
        r == (a@ == b@),
{
    let a_len = a.unicode_len();
    let b_len = b.unicode_len();
    if a_len != b_len {
        return false;
    }
    let mut i: usize = 0;
    while i < a_len
        invariant
            a@.len() == a_len,
            b@.len() == b_len,
            a_len == b_len,
            i <= a_len,
            forall|j: int| 0 <= j < i ==> a@[j] == b@[j],
        decreases a_len - i,
    {
        if a.get_char(i) != b.get_char(i) {
            return false;
        }
        i = i + 1;
    }
    proof {
        assert(a@ =~= b@);
    }
    true
}

/// Parse a human config string as a boolean.
///
/// Recognizes exactly `"1"`, `"y"`, `"yes"`, `"on"`, `"t"`, `"true"` as
/// `Ok(true)` and `"0"`, `"n"`, `"no"`, `"off"`, `"f"`, `"false"` as
/// `Ok(false)`; the empty string gives `Err(Error::Empty)` and any other
/// string gives `Err(Error::Unknown)`.
pub fn parse(s: &str) -> (r: Result<bool, Error>)
    ensures
        r == classify(s@),
{
    if str_eq(s, "1") || str_eq(s, "y") || str_eq(s, "yes") || str_eq(s, "on") || str_eq(s, "t")
        || str_eq(s, "true") {
        Ok(true)
    } else if str_eq(s, "0") || str_eq(s, "n") || str_eq(s, "no") || str_eq(s, "off")
        || str_eq(s, "f") || str_eq(s, "false") {
        Ok(false)
    } else if s.unicode_len() == 0 {
        Err(Error::Empty)
    } else {
        Err(Error::Unknown)
    }
}

/// Classify whichever of two strings is in effect: the looked-up `value`
/// when one is present, the `default` otherwise.
///
/// The host program performs the external lookup and hands its outcome in
/// here. The default is held to the same standard as a looked-up value: it
/// is classified normally, so an empty or unrecognized default fails just
/// as an empty or unrecognized looked-up value does.
pub fn resolve(value: Option<&str>, default: &str) -> (r: Result<bool, Error>)
    ensures
        r == resolution(value.deep_view(), default@),
{
    match value {
        Some(v) => parse(v),
        None => parse(default),
    }
}

/// Every recognized true spelling classifies as `Ok(true)`.
pub proof fn lemma_true_spellings_classify_true(s: Seq<char>)
    requires
        is_true_spelling(s),
    ensures
        classify(s) == Result::<bool, Error>::Ok(true),
{
}

/// Every recognized false spelling classifies as `Ok(false)`.
pub proof fn lemma_false_spellings_classify_false(s: Seq<char>)
    requires
        is_false_spelling(s),
    ensures
        classify(s) == Result::<bool, Error>::Ok(false),
{
    lemma_spellings_disjoint(s);
}

/// The true spellings and the false spellings are disjoint: no string is
/// recognized as both.
pub proof fn lemma_spellings_disjoint(s: Seq<char>)
    ensures
        !(is_true_spelling(s) && is_false_spelling(s)),
{
    reveal_strlit("1");
    reveal_strlit("y");
    reveal_strlit("yes");
    reveal_strlit("on");
    reveal_strlit("t");
    reveal_strlit("true");
    reveal_strlit("0");
    reveal_strlit("n");
    reveal_strlit("no");
    reveal_strlit("off");
    reveal_strlit("f");
    reveal_strlit("false");
    assert("1"@[0] == '1' && "y"@[0] == 'y' && "t"@[0] == 't');
    assert("0"@[0] == '0' && "n"@[0] == 'n' && "f"@[0] == 'f');
    assert("on"@[0] == 'o' && "no"@[0] == 'n');
    assert("yes"@[0] == 'y' && "off"@[0] == 'o');
    assert("1"@.len() == 1 && "y"@.len() == 1 && "t"@.len() == 1);
    assert("0"@.len() == 1 && "n"@.len() == 1 && "f"@.len() == 1);
    assert("on"@.len() == 2 && "no"@.len() == 2);
    assert("yes"@.len() == 3 && "off"@.len() == 3);
    assert("true"@.len() == 4 && "false"@.len() == 5);
}

/// A string in neither recognized set and not empty classifies as
/// `Err(Error::Unknown)`.
pub proof fn lemma_unrecognized_classifies_unknown(s: Seq<char>)
    requires
        !is_true_spelling(s),
        !is_false_spelling(s),
        s.len() != 0,
    ensures
        classify(s) == Result::<bool, Error>::Err(Error::Unknown),
{
}

/// Classification is a pure function of its input: equal inputs always
/// classify alike.
pub proof fn lemma_classify_deterministic(a: Seq<char>, b: Seq<char>)
    requires
        a == b,
    ensures
        classify(a) == classify(b),
{
}

/// When no looked-up value is present, resolution is exactly the
/// classification of the default.
pub proof fn lemma_resolution_absent_uses_default(default: Seq<char>)
    ensures
        resolution(None, default) == classify(default),
{
}

/// A present true spelling resolves to `Ok(true)` whatever the default.
pub proof fn lemma_resolution_present_wins(v: Seq<char>, default: Seq<char>)
    requires
        is_true_spelling(v),
    ensures
        resolution(Some(v), default) == Result::<bool, Error>::Ok(true),
{
}

} // verus!
