//! Passwords of the budget's users: argon2 hashes in the encoded form, made with the
//! default configuration and the application's salt.

use vstd::prelude::*;
use vstd::string::StringSliceAdditionalSpecFns;

verus! {

#[verifier::external_type_specification]
#[verifier::external_body]
pub struct ExArgon2Error(argon2::Error);

/// The encoded argon2 hash of `pwd` with `salt`, under `Config::default()`.
pub uninterp spec fn argon2_encoded(pwd: Seq<u8>, salt: Seq<u8>) -> Seq<char>;

/// What checking `pwd` against the encoded hash `encoded` gives: whether it matches,
/// or `None` where the check fails.
pub uninterp spec fn argon2_verification(encoded: Seq<char>, pwd: Seq<u8>) -> Option<bool>;

/// The lengths that argon2 accepts for a password and a salt.
pub open spec fn hashable(pwd: Seq<u8>, salt: Seq<u8>) -> bool {
    &&& pwd.len() <= 0xFFFF_FFFF
    &&& 8 <= salt.len() <= 0xFFFF_FFFF
}

/// The parameters that an encoded hash under `Config::default()` starts with: Argon2i,
/// version 19 (0x13), 4096 KiB of memory, three passes, one lane.
pub open spec fn default_hash_prefix() -> Seq<char> {
    "$argon2i$v=19$m=4096,t=3,p=1$"@
}

/// `argon2::hash_encoded` with `Config::default()`: its source refuses exactly a
/// password longer than `u32::MAX` bytes and a salt outside 8..=`u32::MAX` bytes (the
/// default configuration itself is valid), and otherwise returns the encoded hash,
/// which `encode_string` starts with the variant, version, memory, passes and lanes.
#[verifier::external_body]
fn argon2_hash_encoded(pwd: &[u8], salt: &[u8]) -> (res: Result<String, argon2::Error>)
    ensures
        res is Ok <==> hashable(pwd@, salt@),
        res matches Ok(h) ==> h@ == argon2_encoded(pwd@, salt@),
        res matches Ok(h) ==> default_hash_prefix().is_prefix_of(h@),
{
    argon2::hash_encoded(pwd, salt, &argon2::Config::default())
}

/// `argon2::verify_encoded`. Its source decodes the parameters, salt and hash from
/// `encoded`, hashes `pwd` again with them and compares. A string that `hash_encoded`
/// made always decodes, so checking any password of at most `u32::MAX` bytes against it
/// gives a verdict, and the password it was made from matches. Whether another password
/// matches is left unsaid (hashes may collide).
#[verifier::external_body]
fn argon2_verify_encoded(encoded: &str, pwd: &[u8]) -> (res: Result<bool, argon2::Error>)
    ensures
        res matches Ok(b) ==> argon2_verification(encoded@, pwd@) == Some(b),
        res is Err ==> argon2_verification(encoded@, pwd@) is None,
        forall|p: Seq<u8>, s: Seq<u8>|
            hashable(p, s) && pwd@.len() <= 0xFFFF_FFFF && encoded@ == #[trigger] argon2_encoded(p, s)
                ==> (res is Ok && (p == pwd@ ==> res matches Ok(true))),
{
    argon2::verify_encoded(encoded, pwd)
}

/// The lengths argon2 accepts hold for `password` and `salt`.
pub fn can_hash(password: &str, salt: &[u8]) -> (ok: bool)
    ensures
        ok == hashable(password.spec_bytes(), salt@),
{
    let pwd_len = password.as_bytes().len();
    pwd_len <= 0xFFFF_FFFF && 8 <= salt.len() && salt.len() <= 0xFFFF_FFFF
}

/// The encoded argon2 hash of `password` with `salt`; argon2 accepts their lengths.
pub fn hash_password(password: &str, salt: &[u8]) -> (hashed: String)
    requires
        hashable(password.spec_bytes(), salt@),
    ensures
        hashed@ == argon2_encoded(password.spec_bytes(), salt@),
        default_hash_prefix().is_prefix_of(hashed@),
{
    match argon2_hash_encoded(password.as_bytes(), salt) {
        Ok(hashed) => hashed,
        Err(_) => {
            proof {
                assert(false);
            }
            String::new()
        },
    }
}

/// Checks `password` against the encoded hash `password_hash`: whether it matches, or
/// `None` where argon2 cannot check. A hash that `hash_password` made can always be
/// checked, and the password it was made from matches it.
pub fn check_password(password: &str, password_hash: &str) -> (verdict: Option<bool>)
    ensures
        verdict == argon2_verification(password_hash@, password.spec_bytes()),
        forall|p: Seq<u8>, s: Seq<u8>|
            hashable(p, s) && password.spec_bytes().len() <= 0xFFFF_FFFF && password_hash@
                == #[trigger] argon2_encoded(p, s) ==> verdict is Some,
        forall|s: Seq<u8>|
            hashable(password.spec_bytes(), s) && password_hash@ == #[trigger] argon2_encoded(
                password.spec_bytes(),
                s,
            ) ==> verdict == Some(true),
{
    match argon2_verify_encoded(password_hash, password.as_bytes()) {
        Ok(matched) => Some(matched),
        Err(_) => None,
    }
}

/// Whether `password_hash` can be checked against `password`: argon2 gives a verdict.
pub fn can_verify(password: &str, password_hash: &str) -> (ok: bool)
    ensures
        ok == argon2_verification(password_hash@, password.spec_bytes()) is Some,
        forall|p: Seq<u8>, s: Seq<u8>|
            hashable(p, s) && password.spec_bytes().len() <= 0xFFFF_FFFF && password_hash@
                == #[trigger] argon2_encoded(p, s) ==> ok,
{
    check_password(password, password_hash).is_some()
}

/// Checks `password` against the encoded hash `password_hash`, which argon2 can check.
/// Whether the password matches is not used: a password that does not match passes.
pub fn verify_password(password: &str, password_hash: &str)
    requires
        argon2_verification(password_hash@, password.spec_bytes()) is Some,
{
    match argon2_verify_encoded(password_hash, password.as_bytes()) {
        Ok(_) => {},
        Err(_) => {
            proof {
                assert(false);
            }
        },
    }
}

/// The password step of signing in: the submitted password is hashed afresh and the
/// stored password is checked against that hash. Every stored password of at most
/// `u32::MAX` bytes can be checked against a fresh hash, so the step passes for it.
/// Returns the fresh hash.
pub fn sign_in_check(stored_password: &str, submitted_password: &str, salt: &[u8]) -> (fresh:
    String)
    requires
        hashable(submitted_password.spec_bytes(), salt@),
        stored_password.spec_bytes().len() <= 0xFFFF_FFFF,
    ensures
        fresh@ == argon2_encoded(submitted_password.spec_bytes(), salt@),
        argon2_verification(fresh@, stored_password.spec_bytes()) is Some,
{
    let fresh = hash_password(submitted_password, salt);
    let checkable = can_verify(stored_password, fresh.as_str());
    if checkable {
        verify_password(stored_password, fresh.as_str());
    }
    fresh
}


} // verus!
