use vstd::prelude::*;

verus! {

/// The PHC string that argon2 gives for a password under a salt, with the
/// default Argon2id parameters. It depends on the two texts alone.
pub uninterp spec fn argon2id_phc(password: Seq<char>, salt: Seq<char>) -> Seq<char>;

/// Relies on `password_hash::SaltString::generate` drawing from `OsRng`: a
/// fresh random salt in B64. Nothing is known of the text.
#[verifier::external_body]
pub(crate) fn draw_salt() -> (r: String) {
    password_hash::SaltString::generate(&mut password_hash::rand_core::OsRng).as_str().to_string()
}

/// Relies on argon2's `PasswordHasher::hash_password` with the default
/// parameters, the salt read by `Salt::from_b64`: the PHC string of the
/// hash, or `None` when the salt is no valid B64 salt or hashing fails.
#[verifier::external_body]
pub(crate) fn hash_with_salt(password: &String, salt: &String) -> (r: Option<String>)
    ensures
        r matches Some(h) ==> h@ == argon2id_phc(password@, salt@),
{
    let salt = password_hash::Salt::from_b64(salt.as_str()).ok()?;
    argon2::PasswordHasher::hash_password(&argon2::Argon2::default(), password.as_bytes(), salt)
        .ok()
        .map(|h| h.to_string())
}

} // verus!
