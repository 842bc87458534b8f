//! The functions of other crates, and of the standard library, that this library calls. What is
//! said of them here is taken as it stands; everything else is proved from it.

use vstd::prelude::*;
use vstd::utf8::{decode_utf8, valid_utf8};
use crate::options::said;
use crate::peer_files::{forbidden, FORBIDDEN_PATTERN};
use crate::credentials::{costs_fit, lanes_overlong, salt_text};

verus! {

// ---------------------------------------------------------------------------------------------
// The standard library
// ---------------------------------------------------------------------------------------------

/// A text in lower case, as `str::to_lowercase` gives it.
pub uninterp spec fn lowercase(s: Seq<char>) -> Seq<char>;

/// `str::to_lowercase` of the standard library. Its result depends on the text alone.
#[verifier::external_body]
pub(crate) fn to_lowercase(s: &str) -> (r: String)
    ensures
        r@ == lowercase(s@),
{
    s.to_lowercase()
}

/// Whether Unicode counts a character as white space.
pub open spec fn white_space(c: char) -> bool {
    ||| '\u{9}' <= c && c <= '\u{d}'
    ||| c == '\u{20}'
    ||| c == '\u{85}'
    ||| c == '\u{a0}'
    ||| c == '\u{1680}'
    ||| '\u{2000}' <= c && c <= '\u{200a}'
    ||| '\u{2028}' <= c && c <= '\u{2029}'
    ||| c == '\u{202f}'
    ||| c == '\u{205f}'
    ||| c == '\u{3000}'
}

/// `char::is_whitespace` of the standard library tells which characters have the property
/// `White_Space` of Unicode.
#[verifier::external_body]
pub(crate) fn is_white_space(c: char) -> (r: bool)
    ensures
        r == white_space(c),
{
    c.is_whitespace()
}

/// The text that bytes are read as, as `String::from_utf8_lossy` reads them.
pub uninterp spec fn lossy_text(bytes: Seq<u8>) -> Seq<char>;

/// `String::from_utf8_lossy` of the standard library. Its result depends on the bytes alone, and
/// bytes that are valid UTF-8 are read as the text that they encode.
#[verifier::external_body]
pub(crate) fn from_utf8_lossy(bytes: &[u8]) -> (r: String)
    ensures
        r@ == lossy_text(bytes@),
        valid_utf8(bytes@) ==> r@ == decode_utf8(bytes@),
{
    String::from_utf8_lossy(bytes).into_owned()
}

// ---------------------------------------------------------------------------------------------
// sodiumoxide
// ---------------------------------------------------------------------------------------------

/// The Base64 text of bytes, in the original variant, with padding.
pub uninterp spec fn base64_text(bytes: Seq<u8>) -> Seq<char>;

/// The bytes that a Base64 text stands for, in the original variant; none where the text is not
/// Base64.
pub uninterp spec fn base64_bytes(text: Seq<char>) -> Option<Seq<u8>>;

/// `sodiumoxide::base64::encode` in the original variant: four characters for every three bytes
/// or part of them, from which `decode` gives the bytes back.
#[verifier::external_body]
pub(crate) fn base64_encode(bytes: &[u8]) -> (r: String)
    ensures
        r@ == base64_text(bytes@),
        r@.len() == (bytes@.len() + 2) / 3 * 4,
        base64_bytes(r@) == Some(bytes@),
{
    sodiumoxide::base64::encode(bytes, sodiumoxide::base64::Variant::Original)
}

/// `sodiumoxide::base64::decode` in the original variant. Its result depends on the text alone.
#[verifier::external_body]
pub(crate) fn base64_decode(text: &str) -> (r: Option<Vec<u8>>)
    ensures
        match r {
            Some(bytes) => base64_bytes(text@) == Some(bytes@),
            None => base64_bytes(text@) == None::<Seq<u8>>,
        },
{
    sodiumoxide::base64::decode(text, sodiumoxide::base64::Variant::Original).ok()
}

/// `sodiumoxide::utils::memcmp` tells whether two byte strings are the same, in a time that does
/// not depend on what they hold.
#[verifier::external_body]
pub(crate) fn same_secret(x: &[u8], y: &[u8]) -> (r: bool)
    ensures
        r == (x@ == y@),
{
    sodiumoxide::utils::memcmp(x, y)
}

/// `sodiumoxide::crypto::sign::gen_keypair` makes a random secret key of 64 bytes and its public
/// key of 32 bytes, which is the second half of the secret key as well; the secret key stands
/// first here. Which keys they are is left to chance.
#[verifier::external_body]
pub(crate) fn new_key_pair() -> (r: (Vec<u8>, Vec<u8>))
    ensures
        r.0@.len() == 64,
        r.1@.len() == 32,
        r.0@.skip(32) == r.1@,
{
    let (pk, sk) = sodiumoxide::crypto::sign::gen_keypair();
    (sk.0.to_vec(), pk.0.to_vec())
}

// ---------------------------------------------------------------------------------------------
// rand
// ---------------------------------------------------------------------------------------------

/// A random number from `rand::thread_rng`, which is taken to be there; any number may come.
#[verifier::external_body]
pub(crate) fn random_number() -> (r: usize) {
    rand::Rng::gen::<usize>(&mut rand::thread_rng())
}

// ---------------------------------------------------------------------------------------------
// regex
// ---------------------------------------------------------------------------------------------

/// `regex::Regex::new` and `Regex::is_match`, for the pattern of the ids that cannot be the name
/// of a file: it can be compiled, and it is found in a text where one of the characters between
/// its square brackets is.
#[verifier::external_body]
pub(crate) fn pattern_found(pattern: &str, text: &str) -> (r: Option<bool>)
    requires
        pattern@ == FORBIDDEN_PATTERN@,
    ensures
        r == Some(forbidden(text@)),
{
    regex::Regex::new(pattern).ok().map(|regex| regex.is_match(text))
}

// ---------------------------------------------------------------------------------------------
// argon2
// ---------------------------------------------------------------------------------------------

/// What is wrong with a text that should be a password hash in the PHC string format; none where
/// it is one.
pub uninterp spec fn phc_problem(text: Seq<char>) -> Option<Seq<char>>;

/// Whether Argon2 accepts a password for a password hash.
pub uninterp spec fn argon2_accepts(hash: Seq<char>, password: Seq<u8>) -> bool;

/// The password hash that Argon2id makes in version 19 with 32 bytes of output, or what went
/// wrong.
pub uninterp spec fn argon2id_hash(
    m: u32,
    t: u32,
    p: u32,
    password: Seq<u8>,
    salt: Seq<char>,
) -> Result<Seq<char>, Seq<char>>;

/// `argon2::password_hash::PasswordHash::new` reads a password hash. Whether it can, and what it
/// says where it cannot, depends on the text alone.
#[verifier::external_body]
pub(crate) fn phc_error(text: &str) -> (r: Option<String>)
    ensures
        said(r) == phc_problem(text@),
{
    argon2::password_hash::PasswordHash::new(text).err().map(|e| e.to_string())
}

/// `argon2::password_hash::SaltString::generate` makes a salt of 16 bytes with the random numbers
/// of the system, which are taken to be there, and writes it in Base64 without padding. Which
/// salt it is is left to chance.
#[verifier::external_body]
pub(crate) fn new_salt() -> (r: String)
    ensures
        salt_text(r@),
{
    let rng = argon2::password_hash::rand_core::OsRng;
    argon2::password_hash::SaltString::generate(rng).to_string()
}

/// `hash_password` of `argon2::Argon2`, with Argon2id in version 19, on a salt of 16 bytes.
///
/// The hash depends on the costs, the password and the salt alone. It fails on passwords of 2^32
/// bytes and more, and on no others. The hash names the algorithm and the version first, can be
/// read as a password hash, has a number of lanes within bounds, and is accepted for the
/// password. The memory that the costs ask for is taken to be there.
#[verifier::external_body]
pub(crate) fn argon2_hash(m: u32, t: u32, p: u32, password: &[u8], salt: &str) -> (r: Result<
    String,
    String,
>)
    requires
        costs_fit(m, t, p),
        salt_text(salt@),
    ensures
        match r {
            Ok(hash) => {
                &&& argon2id_hash(m, t, p, password@, salt@) == Ok::<Seq<char>, Seq<char>>(hash@)
                &&& "$argon2id$v=19$"@.is_prefix_of(hash@)
                &&& phc_problem(hash@) is None
                &&& !lanes_overlong(hash@)
                &&& argon2_accepts(hash@, password@)
            },
            Err(e) => argon2id_hash(m, t, p, password@, salt@) == Err::<Seq<char>, Seq<char>>(e@),
        },
        r is Ok <==> password@.len() <= 0xFFFF_FFFF,
{
    let params = argon2::Params::new(m, t, p, None).map_err(|e| e.to_string())?;
    let argon2 = argon2::Argon2::new(argon2::Algorithm::Argon2id, argon2::Version::V0x13, params);
    let salt = argon2::password_hash::SaltString::from_b64(salt).map_err(|e| e.to_string())?;
    argon2::PasswordHasher::hash_password(&argon2, password, &salt)
        .map(|hash| hash.to_string())
        .map_err(|e| e.to_string())
}

/// `verify_password` of `argon2::Argon2` on a password hash that can be read, whose number of
/// lanes is within the bounds that the crate computes with. The costs are those that the hash
/// names, each where it is named last, so that the result depends on the hash and the password
/// alone. The memory that they ask for is taken to be there.
#[verifier::external_body]
pub(crate) fn argon2_verify(hash: &str, password: &[u8]) -> (r: bool)
    requires
        phc_problem(hash@) is None,
        !lanes_overlong(hash@),
    ensures
        r == argon2_accepts(hash@, password@),
{
    let context = argon2::Argon2::default();
    argon2::password_hash::PasswordHash::new(hash)
        .and_then(|parsed| argon2::PasswordVerifier::verify_password(&context, password, &parsed))
        .is_ok()
}

} // verus!
