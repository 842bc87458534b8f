//! Secrets in the form in which they are stored.

use vstd::prelude::*;
use crate::text::same_text;

verus! {

/// The version that stands before a secret that is stored encrypted.
pub const PASSWORD_ENC_VERSION: &'static str = "00";

/// What came out when a stored secret was opened.
pub struct Opened {
    /// The secret, or what is stored where it is not encrypted.
    pub text: String,
    /// Whether it was encrypted.
    pub decrypted: bool,
    /// Whether it is stored in a form that has to be stored anew.
    pub should_store: bool,
}

impl View for Opened {
    type V = (Seq<char>, bool);

    open spec fn view(&self) -> (Seq<char>, bool) {
        (self.text@, self.decrypted)
    }
}

/// The form in which a secret is stored over another one: as that one is, where it was encrypted
/// and holds the same secret, and as it was sealed anew otherwise.
pub open spec fn kept_storage(
    plain: Seq<char>,
    stored: Seq<char>,
    opened: (Seq<char>, bool),
    sealed: Seq<char>,
) -> Seq<char> {
    if opened.1 && opened.0 == plain {
        stored
    } else {
        sealed
    }
}

/// The form in which a secret is stored over another one: as that one is, where it was encrypted
/// and holds the same secret, and as it was sealed anew otherwise.
///
/// `opened` is what came out when `stored` was opened, and `sealed` is the secret, sealed anew.
pub fn keep_encrypted_storage_if_plaintext_unchanged(
    plain: &str,
    stored: &str,
    opened: &Opened,
    sealed: String,
) -> (r: String)
    ensures
        r@ == kept_storage(plain@, stored@, opened@, sealed@),
        opened.decrypted && opened.text@ == plain@ ==> r@ == stored@,
        !(opened.decrypted && opened.text@ == plain@) ==> r@ == sealed@,
{
    if opened.decrypted && same_text(opened.text.as_str(), plain) {
        stored.to_owned()
    } else {
        sealed
    }
}

/// A secret that has not changed is stored as it was, so that nothing new has to be written, and
/// one that has changed is stored as it was sealed anew.
pub proof fn law_unchanged_secret_is_kept(
    plain: Seq<char>,
    before: Seq<char>,
    stored: Seq<char>,
    sealed: Seq<char>,
)
    ensures
        kept_storage(plain, stored, (before, true), sealed) == (if plain == before {
            stored
        } else {
            sealed
        }),
{
}

/// What was not stored encrypted is sealed anew, whatever it held.
pub proof fn law_clear_text_is_sealed(
    plain: Seq<char>,
    before: Seq<char>,
    stored: Seq<char>,
    sealed: Seq<char>,
)
    ensures
        kept_storage(plain, stored, (before, false), sealed) == sealed,
{
}

/// What an opened secret stands for tells the secret, and whether it was encrypted.
pub proof fn law_opened_secret_tells_the_secret(opened: Opened)
    ensures
        opened@ == (opened.text@, opened.decrypted),
{
}

} // verus!
