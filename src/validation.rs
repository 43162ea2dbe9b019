use vstd::prelude::*;

verus! {

/// What the `regex` crate answers for a pattern and a text: `None` where the pattern does not
/// compile, otherwise whether the compiled pattern matches the text.
pub uninterp spec fn regex_match_of(pattern: Seq<char>, text: Seq<char>) -> Option<bool>;

/// Relies on regex::Regex::new, which compiles a pattern or fails, and on Regex::is_match, which
/// reports whether the compiled pattern matches somewhere in the text. Both depend on their
/// arguments alone.
#[verifier::external_body]
fn regex_match(pattern: &str, text: &str) -> (r: Option<bool>)
    ensures
        r == regex_match_of(pattern@, text@),
{
    regex::Regex::new(pattern).ok().map(|re| re.is_match(text))
}

/// A phone number: an optional `+1`, a three-digit area code (bare or in parentheses), groups of
/// three and four digits separated by spaces, dots, hyphens or nothing, and an optional
/// extension (`ext`, `x` or `ex` followed by digits).
pub const PHONE_PATTERN: &'static str =
    r"^\+?1?\s*(\(\d{3}\)|\d{3})[-.\s]*\d{3}[-.\s]*\d{4}(?:\s*(?:ext|x|ex)\.?\s*\d+)?$";

/// An email address: a local part that starts with a word character, an `@`, then one or more
/// `label.` groups and a final label of at least two characters.
pub const EMAIL_PATTERN: &'static str = r"^[\w\d][-\w\d+.]*@((?:[-\w\d]+\.)+[-\w\d]{2,})$";

/// `s` is a well-formed phone number.
pub open spec fn phone_valid(s: Seq<char>) -> bool {
    regex_match_of(PHONE_PATTERN@, s) == Some(true)
}

/// `s` is a well-formed email address.
pub open spec fn email_valid(s: Seq<char>) -> bool {
    regex_match_of(EMAIL_PATTERN@, s) == Some(true)
}

/// Whether `phone` is a well-formed phone number.
pub fn is_valid_phone_number(phone: &str) -> (r: bool)
    ensures
        r == phone_valid(phone@),
{
    match regex_match(PHONE_PATTERN, phone) {
        Some(matched) => matched,
        None => false,
    }
}

/// Whether `phone_number` is not a well-formed phone number.
pub fn is_not_valid_phone_number(phone_number: &str) -> (r: bool)
    ensures
        r == !phone_valid(phone_number@),
{
    !is_valid_phone_number(phone_number)
}

/// Whether `email` is a well-formed email address.
pub fn is_valid_email(email: &str) -> (r: bool)
    ensures
        r == email_valid(email@),
{
    match regex_match(EMAIL_PATTERN, email) {
        Some(matched) => matched,
        None => false,
    }
}

/// Whether `email` is not a well-formed email address.
pub fn is_not_valid_email(email: &str) -> (r: bool)
    ensures
        r == !email_valid(email@),
{
    !is_valid_email(email)
}

} // verus!
