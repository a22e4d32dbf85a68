use vstd::prelude::*;

verus! {

/// Whether validator's email check accepts the text: the HTML form rules
/// for an address, with length limits on its two parts.
pub uninterp spec fn valid_email(s: Seq<char>) -> bool;

/// The fewest characters a password may have.
pub const PASSWORD_MIN_CHARS: u64 = 9;

/// The most characters a password may have.
pub const PASSWORD_MAX_CHARS: u64 = 127;

/// Whether a password has an accepted length.
pub open spec fn valid_password(p: Seq<char>) -> bool {
    PASSWORD_MIN_CHARS <= p.len() && p.len() <= PASSWORD_MAX_CHARS
}

/// Relies on `validator::ValidateEmail::validate_email` for `String`, which
/// refuses at once a text without an `@` (the empty text among them).
#[verifier::external_body]
fn email_check(s: &String) -> (r: bool)
    ensures
        r == valid_email(s@),
        !s@.contains('@') ==> !r,
{
    validator::ValidateEmail::validate_email(s)
}

/// Relies on `validator::ValidateLength::validate_length` for `String`, which
/// counts characters and compares the count with both bounds.
#[verifier::external_body]
fn chars_within(s: &String, min: u64, max: u64) -> (r: bool)
    ensures
        r == (min <= s@.len() && s@.len() <= max),
{
    validator::ValidateLength::<u64>::validate_length(s, Some(min), Some(max), None)
}

/// Whether `s` is an acceptable email address.
pub fn is_valid_email(s: &String) -> (r: bool)
    ensures
        r == valid_email(s@),
        !s@.contains('@') ==> !r,
{
    email_check(s)
}

/// Whether `p` has between 9 and 127 characters.
pub fn is_valid_password(p: &String) -> (r: bool)
    ensures
        r == valid_password(p@),
{
    chars_within(p, PASSWORD_MIN_CHARS, PASSWORD_MAX_CHARS)
}

} // verus!
