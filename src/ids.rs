use vstd::prelude::*;

verus! {

/// A row's primary key: the 128 bits of a UUID, most significant byte first.
#[derive(Clone, Copy, PartialEq, Eq, Structural, Debug, Hash)]
pub struct Id {
    pub value: u128,
}

/// The bits that a version 4 UUID fixes: the version nibble reads 4 and the
/// variant bits read `10`.
pub open spec fn is_v4(value: u128) -> bool {
    value & 0xF000_C000_0000_0000_0000u128 == 0x4000_8000_0000_0000_0000u128
}

/// What `uuid::Uuid::parse_str` gives for a string, as the UUID's 128 bits.
pub uninterp spec fn parsed_uuid(s: Seq<char>) -> Option<u128>;

/// Relies on `uuid::Uuid::new_v4`: random bits, with the version and variant
/// bits of a version 4 UUID set.
#[verifier::external_body]
fn random_v4() -> (r: u128)
    ensures
        is_v4(r),
{
    uuid::Uuid::new_v4().as_u128()
}

/// Relies on `uuid::Uuid::parse_str`, which accepts only hexadecimal digits,
/// hyphens, braces and a `urn:uuid:` prefix, so a quote never parses.
#[verifier::external_body]
fn parse_uuid(s: &str) -> (r: Option<u128>)
    ensures
        r == parsed_uuid(s@),
        s@.contains('\'') ==> r is None,
{
    uuid::Uuid::parse_str(s).ok().map(|u| u.as_u128())
}

impl Id {
    /// A fresh, randomly generated version 4 id.
    pub fn new_v4() -> (r: Id)
        ensures
            is_v4(r.value),
    {
        Id { value: random_v4() }
    }

    /// Reads an id written in one of the textual forms of a UUID; `None` for
    /// anything else, which includes every string holding a quote.
    pub fn parse(s: &str) -> (r: Option<Id>)
        ensures
            r matches Some(id) ==> parsed_uuid(s@) == Some(id.value),
            r is None <==> parsed_uuid(s@) is None,
            s@.contains('\'') ==> r is None,
    {
        match parse_uuid(s) {
            Some(value) => Some(Id { value }),
            None => None,
        }
    }
}

} // verus!
