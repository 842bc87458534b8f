//! The name and the password that others need to get access to this device.
//!
//! The password is kept as an Argon2id hash. Names and passwords are checked before they come
//! here: the functions take the outcome of those checks.

use vstd::prelude::*;
use crate::config::{Config, LAN_SCHEMA_VERSION};
use crate::error::ConfigError;
use crate::outside::{
    argon2_accepts, argon2_hash, argon2_verify, argon2id_hash, new_salt, phc_error, phc_problem,
    same_secret,
};
use crate::text::chars_of;

verus! {

/// The memory for hashing a password, in KiB.
pub const LAN_ARGON2_MEMORY_KIB: u32 = 65536;

/// The number of passes for hashing a password.
pub const LAN_ARGON2_ITERATIONS: u32 = 3;

/// The number of lanes for hashing a password.
pub const LAN_ARGON2_PARALLELISM: u32 = 1;

/// Whether Argon2 takes these costs: memory in KiB, passes and lanes.
pub open spec fn costs_fit(m: u32, t: u32, p: u32) -> bool {
    1 <= p <= 0xFF_FFFF && m >= 8 * p && t >= 1
}

/// Whether a character belongs to Base64.
pub open spec fn base64_char(c: char) -> bool {
    ('A' <= c && c <= 'Z') || ('a' <= c && c <= 'z') || ('0' <= c && c <= '9') || c == '+' || c
        == '/'
}

/// Whether a text is a salt of 16 bytes in Base64 without padding: 22 characters, the last of
/// which stands for two bits.
pub open spec fn salt_text(s: Seq<char>) -> bool {
    &&& s.len() == 22
    &&& forall|i: int| 0 <= i < s.len() ==> base64_char(#[trigger] s[i])
    &&& s[21] == 'A' || s[21] == 'Q' || s[21] == 'g' || s[21] == 'w'
}

/// Whether a character is a decimal digit.
pub open spec fn decimal_digit(c: char) -> bool {
    '0' <= c && c <= '9'
}

/// Whether a number of lanes stands at a place in a password hash.
pub open spec fn lanes_at(hash: Seq<char>, i: int) -> bool {
    0 <= i && i + 1 < hash.len() && hash[i] == 'p' && hash[i + 1] == '='
}

/// Whether a number of lanes with nine digits or more stands at a place in a password hash.
pub open spec fn overlong_at(hash: Seq<char>, i: int) -> bool {
    &&& lanes_at(hash, i)
    &&& i + 11 <= hash.len()
    &&& forall|j: int| i + 2 <= j < i + 11 ==> decimal_digit(#[trigger] hash[j])
}

/// Whether the number of lanes that counts in a password hash, which is the last one, has nine
/// digits or more. That is more than Argon2 allows.
pub open spec fn lanes_overlong(hash: Seq<char>) -> bool {
    exists|i: int| #[trigger]
        overlong_at(hash, i) && forall|k: int| i < k ==> !#[trigger] lanes_at(hash, k)
}

/// Whether the number of lanes that counts in a password hash has nine digits or more.
pub fn has_overlong_lanes(hash: &str) -> (r: bool)
    ensures
        r == lanes_overlong(hash@),
{
    let chars = chars_of(hash);
    let mut i: usize = chars.len();
    while i > 0
        invariant
            chars@ == hash@,
            i <= chars.len(),
            forall|k: int| i <= k ==> !#[trigger] lanes_at(hash@, k),
        decreases i,
    {
        i -= 1;
        if chars.len() - i >= 2 && chars[i] == 'p' && chars[i + 1] == '=' {
            assert(lanes_at(hash@, i as int));
            if chars.len() - i < 11 {
                return false;
            }
            let mut j: usize = i + 2;
            while j < i + 11 && '0' <= chars[j] && chars[j] <= '9'
                invariant
                    chars@ == hash@,
                    i + 11 <= chars.len(),
                    i + 2 <= j <= i + 11,
                    forall|k: int| i + 2 <= k < j ==> decimal_digit(#[trigger] hash@[k]),
                decreases i + 11 - j,
            {
                j += 1;
            }
            if j == i + 11 {
                assert(overlong_at(hash@, i as int));
                return true;
            }
            assert(!decimal_digit(hash@[j as int]));
            return false;
        }
    }
    false
}

/// Whether a hash is one of a password, as this library makes it: with its costs, and with some
/// salt.
pub open spec fn lan_hash_of(hash: Seq<char>, password: Seq<u8>) -> bool {
    &&& exists|salt: Seq<char>| #[trigger]
        salt_text(salt) && argon2id_hash(
            LAN_ARGON2_MEMORY_KIB,
            LAN_ARGON2_ITERATIONS,
            LAN_ARGON2_PARALLELISM,
            password,
            salt,
        ) == Ok::<Seq<char>, Seq<char>>(hash)
    &&& "$argon2id$v=19$"@.is_prefix_of(hash)
    &&& phc_problem(hash) is None
    &&& !lanes_overlong(hash)
    &&& argon2_accepts(hash, password)
}

/// The hash of a password with the given salt.
///
/// `checked` is the outcome of the check of passwords.
pub fn hash_lan_password_with_salt(
    checked: Result<(), ConfigError>,
    password: &[u8],
    salt: &str,
) -> (r: Result<String, ConfigError>)
    requires
        salt_text(salt@),
    ensures
        match checked {
            Err(e) => r == Err::<String, ConfigError>(e),
            Ok(_) => match argon2id_hash(
                LAN_ARGON2_MEMORY_KIB,
                LAN_ARGON2_ITERATIONS,
                LAN_ARGON2_PARALLELISM,
                password@,
                salt@,
            ) {
                Ok(hash) => r is Ok && r->Ok_0@ == hash,
                Err(problem) => r matches Err(ConfigError::HashFailed(reason)) && reason@
                    == problem,
            },
        },
        checked is Ok ==> (r is Ok <==> password@.len() <= 0xFFFF_FFFF),
        r matches Ok(hash) ==> lan_hash_of(hash@, password@),
{
    match checked {
        Err(e) => Err(e),
        Ok(_) => match argon2_hash(
            LAN_ARGON2_MEMORY_KIB,
            LAN_ARGON2_ITERATIONS,
            LAN_ARGON2_PARALLELISM,
            password,
            salt,
        ) {
            Ok(hash) => Ok(hash),
            Err(problem) => Err(ConfigError::HashFailed(problem)),
        },
    }
}

/// The hash of a password with a new salt.
///
/// `checked` is the outcome of the check of passwords.
pub fn hash_lan_password(checked: Result<(), ConfigError>, password: &[u8]) -> (r: Result<
    String,
    ConfigError,
>)
    ensures
        checked matches Err(e) ==> r == Err::<String, ConfigError>(e),
        checked is Ok ==> (r is Ok <==> password@.len() <= 0xFFFF_FFFF),
        checked is Ok && r is Err ==> r->Err_0 is HashFailed,
        r matches Ok(hash) ==> lan_hash_of(hash@, password@),
{
    let salt = new_salt();
    hash_lan_password_with_salt(checked, password, salt.as_str())
}

/// Whether a password hash is accepted for a password. Nothing is accepted for a hash with more
/// lanes than Argon2 allows.
pub open spec fn hash_accepts(hash: Seq<char>, password: Seq<u8>) -> bool {
    !lanes_overlong(hash) && argon2_accepts(hash, password)
}

/// Whether a password hash is accepted for a password.
///
/// `checked` is the outcome of the check of passwords.
pub fn verify_lan_password_hash(
    password_hash: &str,
    checked: Result<(), ConfigError>,
    password: &[u8],
) -> (r: Result<bool, ConfigError>)
    ensures
        match checked {
            Err(e) => r == Err::<bool, ConfigError>(e),
            Ok(_) => match phc_problem(password_hash@) {
                Some(problem) => r matches Err(ConfigError::InvalidStoredHash(reason)) && reason@
                    == problem,
                None => r == Ok::<bool, ConfigError>(hash_accepts(password_hash@, password@)),
            },
        },
{
    if let Err(e) = checked {
        return Err(e);
    }
    match phc_error(password_hash) {
        Some(problem) => Err(ConfigError::InvalidStoredHash(problem)),
        None => if has_overlong_lanes(password_hash) {
            Ok(false)
        } else {
            Ok(argon2_verify(password_hash, password))
        },
    }
}

/// The number of credentials after these: it grows by one, up to the largest there is.
pub open spec fn next_revision(n: u64) -> u64 {
    if n == u64::MAX {
        n
    } else {
        (n + 1) as u64
    }
}

/// Whether a name and a password, both of which passed the checks, give access where this name
/// and this password hash are stored.
pub open spec fn gives_access(
    stored_username: Seq<char>,
    stored_password_hash: Seq<char>,
    username: Seq<char>,
    password: Seq<u8>,
) -> bool {
    &&& stored_username.len() > 0
    &&& stored_password_hash.len() > 0
    &&& username == stored_username
    &&& hash_accepts(stored_password_hash, password)
}

impl Config {
    /// Whether there is a name and a password for access.
    pub fn lan_credentials_configured(&self) -> (r: bool)
        ensures
            r == (self.access_username@.len() > 0 && self.access_password_hash@.len() > 0),
    {
        !self.access_username.as_str().is_empty() && !self.access_password_hash.as_str().is_empty()
    }

    /// The name for access.
    pub fn get_lan_access_username(&self) -> (r: String)
        ensures
            r@ == self.access_username@,
    {
        self.access_username.clone()
    }

    /// How many times the credentials were set or cleared.
    pub fn get_credential_revision(&self) -> (r: u64)
        ensures
            r == self.credential_revision,
    {
        self.credential_revision
    }

    /// The version of what is stored.
    pub fn get_lan_schema_version(&self) -> (r: u32)
        ensures
            r == self.lan_schema_version,
    {
        self.lan_schema_version
    }

    /// Sets the name and the password hash for access, and gives the new number of the
    /// credentials. There is always something to store.
    fn put_lan_credentials(&mut self, username: String, password_hash: String) -> (revision: u64)
        ensures
            revision == next_revision(old(self).credential_revision),
            *final(self) == (Config {
                access_username: username,
                access_password_hash: password_hash,
                credential_revision: revision,
                lan_schema_version: LAN_SCHEMA_VERSION,
                ..*old(self)
            }),
    {
        self.access_username = username;
        self.access_password_hash = password_hash;
        self.credential_revision = self.credential_revision.saturating_add(1);
        self.lan_schema_version = LAN_SCHEMA_VERSION;
        self.credential_revision
    }

    /// Sets the name and the password for access, and gives the new number of the credentials.
    ///
    /// `username` is the name that passed the check of names, and `checked` the outcome of the
    /// check of passwords. What comes back as `Ok` is to be stored.
    pub fn set_lan_credentials(
        &mut self,
        username: Result<String, ConfigError>,
        checked: Result<(), ConfigError>,
        password: &[u8],
    ) -> (r: Result<u64, ConfigError>)
        ensures
            username matches Err(e) ==> r == Err::<u64, ConfigError>(e),
            username is Ok ==> (checked matches Err(e) ==> r == Err::<u64, ConfigError>(e)),
            username is Ok && checked is Ok ==> (r is Ok <==> password@.len() <= 0xFFFF_FFFF),
            username is Ok && checked is Ok && r is Err ==> r->Err_0 is HashFailed,
            r is Err ==> *final(self) == *old(self),
            r matches Ok(revision) ==> {
                &&& revision == next_revision(old(self).credential_revision)
                &&& *final(self) == (Config {
                    access_username: username->Ok_0,
                    access_password_hash: final(self).access_password_hash,
                    credential_revision: revision,
                    lan_schema_version: LAN_SCHEMA_VERSION,
                    ..*old(self)
                })
                &&& lan_hash_of(final(self).access_password_hash@, password@)
            },
    {
        let username = match username {
            Ok(username) => username,
            Err(e) => return Err(e),
        };
        let password_hash = match hash_lan_password(checked, password) {
            Ok(password_hash) => password_hash,
            Err(e) => return Err(e),
        };
        Ok(self.put_lan_credentials(username, password_hash))
    }

    /// Clears the name and the password for access, and gives the new number of the credentials.
    /// There is always something to store.
    pub fn clear_lan_credentials(&mut self) -> (revision: u64)
        ensures
            revision == next_revision(old(self).credential_revision),
            *final(self) == (Config {
                access_username: final(self).access_username,
                access_password_hash: final(self).access_password_hash,
                credential_revision: revision,
                lan_schema_version: LAN_SCHEMA_VERSION,
                ..*old(self)
            }),
            final(self).access_username@.len() == 0,
            final(self).access_password_hash@.len() == 0,
    {
        self.put_lan_credentials(String::new(), String::new())
    }

    /// Whether a name and a password give access.
    ///
    /// `username` is the name that passed the check of names, and `checked` the outcome of the
    /// check of passwords.
    pub fn verify_lan_credentials(
        &self,
        username: Result<String, ConfigError>,
        checked: Result<(), ConfigError>,
        password: &[u8],
    ) -> (r: Result<bool, ConfigError>)
        ensures
            access_decided(
                self.access_username@,
                self.access_password_hash@,
                username,
                checked,
                password@,
                r,
            ),
    {
        Self::verify_lan_credentials_against(
            self.access_username.as_str(),
            self.access_password_hash.as_str(),
            username,
            checked,
            password,
        )
    }

    /// Whether a name and a password give access where the given name and password hash are
    /// stored.
    ///
    /// `username` is the name that passed the check of names, and `checked` the outcome of the
    /// check of passwords.
    pub fn verify_lan_credentials_against(
        stored_username: &str,
        stored_password_hash: &str,
        username: Result<String, ConfigError>,
        checked: Result<(), ConfigError>,
        password: &[u8],
    ) -> (r: Result<bool, ConfigError>)
        ensures
            access_decided(
                stored_username@,
                stored_password_hash@,
                username,
                checked,
                password@,
                r,
            ),
    {
        let username = match username {
            Ok(username) => username,
            Err(e) => return Err(e),
        };
        if let Err(e) = checked {
            return Err(e);
        }
        if stored_username.is_empty() || stored_password_hash.is_empty() {
            return Ok(false);
        }
        proof {
            vstd::utf8::encode_utf8_decode_utf8(username@);
            vstd::utf8::encode_utf8_decode_utf8(stored_username@);
        }
        let username_matches = same_secret(username.as_str().as_bytes(), stored_username.as_bytes());
        match verify_lan_password_hash(stored_password_hash, Ok(()), password) {
            Ok(password_matches) => Ok(username_matches && password_matches),
            Err(e) => Err(e),
        }
    }
}

/// What is answered to a name and a password. A name or a password that did not pass its check is
/// answered with the reason; without credentials there is no access; and a stored hash that
/// cannot be read is an error.
pub open spec fn access_decided(
    stored_username: Seq<char>,
    stored_password_hash: Seq<char>,
    username: Result<String, ConfigError>,
    checked: Result<(), ConfigError>,
    password: Seq<u8>,
    r: Result<bool, ConfigError>,
) -> bool {
    match (username, checked) {
        (Err(e), _) => r == Err::<bool, ConfigError>(e),
        (Ok(_), Err(e)) => r == Err::<bool, ConfigError>(e),
        (Ok(username), Ok(_)) => if stored_username.len() == 0 || stored_password_hash.len() == 0 {
            r == Ok::<bool, ConfigError>(false)
        } else {
            match phc_problem(stored_password_hash) {
                Some(problem) => r matches Err(ConfigError::InvalidStoredHash(reason)) && reason@
                    == problem,
                None => r == Ok::<bool, ConfigError>(
                    gives_access(stored_username, stored_password_hash, username@, password),
                ),
            }
        },
    }
}

// ---------------------------------------------------------------------------------------------
// Laws
// ---------------------------------------------------------------------------------------------

/// The name and the password that were set give access.
pub proof fn law_credentials_that_were_set_give_access(
    hash: Seq<char>,
    username: String,
    password: Seq<u8>,
    r: Result<bool, ConfigError>,
)
    requires
        username@.len() > 0,
        lan_hash_of(hash, password),
        access_decided(username@, hash, Ok(username), Ok(()), password, r),
    ensures
        r == Ok::<bool, ConfigError>(true),
{
    reveal_strlit("$argon2id$v=19$");
}

/// Another name gives no access, whatever the password is.
pub proof fn law_another_name_gives_no_access(
    stored_username: Seq<char>,
    hash: Seq<char>,
    username: String,
    password: Seq<u8>,
    r: Result<bool, ConfigError>,
)
    requires
        username@ != stored_username,
        access_decided(stored_username, hash, Ok(username), Ok(()), password, r),
    ensures
        r != Ok::<bool, ConfigError>(true),
{
}

/// Where the credentials were cleared, nothing gives access.
pub proof fn law_cleared_credentials_give_no_access(
    username: String,
    password: Seq<u8>,
    r: Result<bool, ConfigError>,
)
    requires
        access_decided(Seq::empty(), Seq::empty(), Ok(username), Ok(()), password, r),
    ensures
        r == Ok::<bool, ConfigError>(false),
{
}

/// The number of the credentials is never zero once they were set or cleared, never goes back,
/// and grows until it has reached the largest number there is.
pub proof fn law_revision_grows(n: u64)
    ensures
        next_revision(n) >= 1,
        next_revision(n) >= n,
        n < u64::MAX ==> next_revision(n) > n,
{
}

/// A hash that this library makes is one by Argon2id with 64 MiB of memory, three passes and one
/// lane, with a salt of 22 characters, and is accepted for its password.
pub proof fn law_costs_of_a_hash(hash: Seq<char>, password: Seq<u8>)
    requires
        lan_hash_of(hash, password),
    ensures
        exists|salt: Seq<char>|
            salt.len() == 22 && #[trigger] argon2id_hash(65536, 3, 1, password, salt) == Ok::<
                Seq<char>,
                Seq<char>,
            >(hash),
        "$argon2id$v=19$"@.is_prefix_of(hash),
        hash_accepts(hash, password),
        argon2_accepts(hash, password),
        phc_problem(hash) is None,
{
    let salt = choose|salt: Seq<char>| #[trigger]
        salt_text(salt) && argon2id_hash(
            LAN_ARGON2_MEMORY_KIB,
            LAN_ARGON2_ITERATIONS,
            LAN_ARGON2_PARALLELISM,
            password,
            salt,
        ) == Ok::<Seq<char>, Seq<char>>(hash);
    assert(argon2id_hash(65536, 3, 1, password, salt) == Ok::<Seq<char>, Seq<char>>(hash));
}

/// The number of lanes that counts is the last one: it is too long where it has nine digits or
/// more, whatever stands before it, and only there.
pub proof fn law_last_number_of_lanes_counts(before: Seq<char>, behind: Seq<char>)
    requires
        forall|k: int|
            0 <= k && k + 1 < behind.len() ==> !(#[trigger] behind[k] == 'p' && behind[k + 1]
                == '='),
    ensures
        lanes_overlong(before + seq!['p', '='] + behind) <==> behind.len() >= 9 && forall|j: int|
            0 <= j < 9 ==> '0' <= #[trigger] behind[j] <= '9',
        !lanes_overlong(behind),
{
    let hash = before + seq!['p', '='] + behind;
    let at = before.len() as int;
    assert(hash[at] == 'p' && hash[at + 1] == '=');
    assert(lanes_at(hash, at));
    assert forall|k: int| at < k implies !#[trigger] lanes_at(hash, k) by {
        if lanes_at(hash, k) {
            if k == at + 1 {
                assert(hash[k] == '=');
            } else {
                assert(hash[k] == behind[k - at - 2]);
                assert(hash[k + 1] == behind[k - at - 2 + 1]);
            }
        }
    }
    if behind.len() >= 9 && forall|j: int| 0 <= j < 9 ==> '0' <= #[trigger] behind[j] <= '9' {
        assert forall|j: int| at + 2 <= j < at + 11 implies decimal_digit(#[trigger] hash[j]) by {
            assert(hash[j] == behind[j - at - 2]);
        }
        assert(overlong_at(hash, at));
    }
    if lanes_overlong(hash) {
        let i = choose|i: int| #[trigger]
            overlong_at(hash, i) && forall|k: int| i < k ==> !#[trigger] lanes_at(hash, k);
        assert(lanes_at(hash, i));
        assert(i == at);
        assert forall|j: int| 0 <= j < 9 implies '0' <= #[trigger] behind[j] <= '9' by {
            assert(hash[at + 2 + j] == behind[j]);
            assert(decimal_digit(hash[at + 2 + j]));
        }
    }
    if lanes_overlong(behind) {
        let i = choose|i: int| #[trigger]
            overlong_at(behind, i) && forall|k: int| i < k ==> !#[trigger] lanes_at(behind, k);
        assert(lanes_at(behind, i));
        assert(behind[i] == 'p' && behind[i + 1] == '=');
    }
}

/// A hash is accepted where Argon2 accepts it, unless it names more lanes than Argon2 allows.
pub proof fn law_which_hashes_are_accepted(hash: Seq<char>, password: Seq<u8>)
    ensures
        !lanes_overlong(hash) ==> hash_accepts(hash, password) == argon2_accepts(hash, password),
        lanes_overlong(hash) ==> !hash_accepts(hash, password),
{
}

/// Access is given where a name and a hash are stored, the name is the stored one and the hash is
/// accepted for the password, and only there.
pub proof fn law_what_gives_access(
    stored_username: Seq<char>,
    hash: Seq<char>,
    username: String,
    password: Seq<u8>,
    r: Result<bool, ConfigError>,
)
    requires
        access_decided(stored_username, hash, Ok(username), Ok(()), password, r),
    ensures
        r == Ok::<bool, ConfigError>(true) <==> stored_username.len() > 0 && hash.len() > 0
            && phc_problem(hash) is None && username@ == stored_username && hash_accepts(
            hash,
            password,
        ),
        r is Err <==> stored_username.len() > 0 && hash.len() > 0 && phc_problem(hash) is Some,
        r matches Err(e) ==> (e matches ConfigError::InvalidStoredHash(reason) && Some(reason@)
            == phc_problem(hash)),
{
}

/// A name that did not pass its check is answered with the reason, whatever the password is; so is
/// a password, where the name has passed; and nothing that is stored matters then.
pub proof fn law_failed_checks_are_answered(
    stored_username: Seq<char>,
    hash: Seq<char>,
    username: Result<String, ConfigError>,
    checked: Result<(), ConfigError>,
    password: Seq<u8>,
    r: Result<bool, ConfigError>,
)
    requires
        access_decided(stored_username, hash, username, checked, password, r),
    ensures
        username matches Err(e) ==> r == Err::<bool, ConfigError>(e),
        username is Ok ==> (checked matches Err(e) ==> r == Err::<bool, ConfigError>(e)),
{
}

/// The next number of the credentials is greater by one, as long as there is a greater one.
pub proof fn law_revisions_are_counted(n: u64)
    ensures
        n < u64::MAX ==> next_revision(n) == n + 1,
        n == u64::MAX ==> next_revision(n) == u64::MAX,
{
}

/// A salt is 22 characters of Base64, the last of which leaves no bits over.
pub proof fn law_what_salts_are(s: Seq<char>)
    ensures
        salt_text(s) <==> s.len() == 22 && (forall|i: int|
            0 <= i < 22 ==> ('A' <= #[trigger] s[i] <= 'Z' || 'a' <= s[i] <= 'z' || '0' <= s[i]
                <= '9' || s[i] == '+' || s[i] == '/')) && (s[21] == 'A' || s[21] == 'Q' || s[21]
            == 'g' || s[21] == 'w'),
{
    if s.len() == 22 && (forall|i: int|
        0 <= i < 22 ==> ('A' <= #[trigger] s[i] <= 'Z' || 'a' <= s[i] <= 'z' || '0' <= s[i] <= '9'
            || s[i] == '+' || s[i] == '/')) {
        assert(forall|i: int| 0 <= i < s.len() ==> base64_char(#[trigger] s[i]));
    }
    if salt_text(s) {
        assert(forall|i: int| 0 <= i < s.len() ==> base64_char(#[trigger] s[i]));
    }
}

} // verus!
