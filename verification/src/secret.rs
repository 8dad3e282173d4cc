//! Password hashing with bcrypt.
use vstd::prelude::*;

verus! {

#[verifier::external_type_specification]
#[verifier::external_body]
pub struct ExBcryptError(bcrypt::BcryptError);

/// What `bcrypt::verify(password, hash)` returns for a password and a
/// stored hash: `Some(b)` for `Ok(b)`, `None` for an error (a hash that is
/// not in the bcrypt format).
pub uninterp spec fn bcrypt_check(password: Seq<char>, hash: Seq<char>) -> Option<bool>;

/// The work factor with which passwords are hashed (bcrypt's default).
pub const PASSWORD_COST: u32 = 12;

/// A character of bcrypt's base64 alphabet: `.`, `/`, `A`-`Z`, `a`-`z`,
/// `0`-`9`.
pub open spec fn bcrypt_alphabet_char(c: char) -> bool {
    let n = c as u32;
    ||| n == 0x2e
    ||| n == 0x2f
    ||| 0x41 <= n <= 0x5a
    ||| 0x61 <= n <= 0x7a
    ||| 0x30 <= n <= 0x39
}

/// The decimal digit `d` (0 to 9) as a character.
pub open spec fn digit_char(d: int) -> char {
    (0x30 + d) as char
}

/// The form of a hash `bcrypt::hash` makes at `cost` (4 to 31): `$2b$`, the
/// cost in two digits, `$`, then 53 characters of bcrypt's base64 alphabet
/// (22 of salt, 31 of hash) - 60 characters in all.
pub open spec fn bcrypt_hash_form(h: Seq<char>, cost: u32) -> bool {
    &&& h.len() == 60
    &&& h.subrange(0, 4) == "$2b$"@
    &&& h[4] == digit_char((cost / 10) as int)
    &&& h[5] == digit_char((cost % 10) as int)
    &&& h[6] == '$'
    &&& forall|i: int| 7 <= i < 60 ==> bcrypt_alphabet_char(#[trigger] h[i])
}

/// `bcrypt::verify`. Its result is named by `bcrypt_check`.
#[verifier::external_body]
pub(crate) fn bcrypt_verify(password: &str, hash: &str) -> (r: Result<bool, bcrypt::BcryptError>)
    ensures
        match r {
            Ok(b) => bcrypt_check(password@, hash@) == Some(b),
            Err(_) => bcrypt_check(password@, hash@) is None,
        },
{
    bcrypt::verify(password, hash)
}

/// `bcrypt::hash` with a cost that bcrypt accepts (4 to 31). The salt is
/// drawn from the system's randomness, so the hash itself is not stated;
/// what its source shows of every outcome is stated: a hash it returns has
/// the bcrypt form at that cost (version `2b`), and `bcrypt::verify` accepts
/// it for the same password. It fails only when the system gives no
/// randomness, which is not stated either.
#[verifier::external_body]
pub(crate) fn bcrypt_hash(password: &str, cost: u32) -> (r: Result<String, bcrypt::BcryptError>)
    requires
        4 <= cost <= 31,
    ensures
        r matches Ok(h) ==> bcrypt_check(password@, h@) == Some(true) && bcrypt_hash_form(h@, cost),
{
    bcrypt::hash(password, cost)
}

/// Checks a password against a stored hash: `Some(true)` when it matches,
/// `Some(false)` when it does not, `None` when the stored hash is unreadable.
pub fn check_password(password: &str, stored: &str) -> (r: Option<bool>)
    ensures
        r == bcrypt_check(password@, stored@),
{
    match bcrypt_verify(password, stored) {
        Ok(b) => Some(b),
        Err(_) => None,
    }
}

/// A hash fit to store for `password`: a bcrypt hash at `PASSWORD_COST`
/// that bcrypt accepts for the password.
pub open spec fn stored_hash_of(password: Seq<char>, h: Seq<char>) -> bool {
    &&& bcrypt_check(password, h) == Some(true)
    &&& bcrypt_hash_form(h, PASSWORD_COST)
}

/// Hashes a password for storage at bcrypt's default cost: the hash starts
/// `$2b$12$`; `None` when no hash could be made (the system gave no
/// randomness for the salt).
pub fn hash_password(password: &str) -> (r: Option<String>)
    ensures
        r matches Some(h) ==> stored_hash_of(password@, h@) && h@.len() == 60 && h@.subrange(0, 7)
            == "$2b$12$"@,
{
    match bcrypt_hash(password, PASSWORD_COST) {
        Ok(h) => {
            proof {
                reveal_strlit("$2b$");
                reveal_strlit("$2b$12$");
                assert(h@.subrange(0, 7) =~= "$2b$12$"@) by {
                    assert(h@.subrange(0, 4)[0] == h@[0]);
                    assert(h@.subrange(0, 4)[1] == h@[1]);
                    assert(h@.subrange(0, 4)[2] == h@[2]);
                    assert(h@.subrange(0, 4)[3] == h@[3]);
                }
            }
            Some(h)
        },
        Err(_) => None,
    }
}

} // verus!
