//! The secrets of an installation: the database password, the key that signs tokens
//! and the key that encrypts payment fields. Each is taken from the environment, else
//! from its file, else made anew and kept in its file.

use vstd::prelude::*;

use crate::outside::{
    base64_decode, base64_decoded, base64_encode, base64_encoded, is_alphanumeric, is_base64,
    random_alphanumeric, random_key,
};
use crate::path::DesktopPath;
use crate::supervisor::text_option;
use crate::text::{law_trim_is_idempotent, lemma_trim_is_identity, trim, trim_text};

verus! {

/// What the environment settles of a secret.
#[derive(Debug, PartialEq)]
pub enum EnvSecret {
    /// The secret to use.
    Use(String),
    /// The file of the secret decides.
    AskFile,
}

/// What the file of a secret settles.
#[derive(Debug, PartialEq)]
pub enum FileSecret {
    /// The secret to use.
    Use(String),
    /// A new secret, to be kept in the file, which nobody but its owner may read.
    Keep(String),
}

impl EnvSecret {
    /// The secret to use, where the environment settles it.
    pub open spec fn used(&self) -> Option<Seq<char>> {
        match *self {
            EnvSecret::Use(s) => Some(s@),
            EnvSecret::AskFile => None,
        }
    }
}

impl FileSecret {
    /// The secret to use, where the file has it; none where a new one is kept.
    pub open spec fn used(&self) -> Option<Seq<char>> {
        match *self {
            FileSecret::Use(s) => Some(s@),
            FileSecret::Keep(_) => None,
        }
    }

    /// The secret, kept or new.
    pub open spec fn secret(&self) -> Seq<char> {
        match *self {
            FileSecret::Use(s) => s@,
            FileSecret::Keep(s) => s@,
        }
    }
}

/// The permissions of a file that holds a secret.
pub const SECRET_FILE_MODE: u32 = 0o600;

/// The length of a new database password.
pub const PASSWORD_LEN: usize = 32;

/// The length of a new signing key.
pub const JWT_SECRET_LEN: usize = 64;

/// Whether `s` is a random text of length `len`: ASCII letters and digits.
pub open spec fn is_random_text(s: Seq<char>, len: nat) -> bool {
    &&& s.len() == len
    &&& forall|i: int| 0 <= i < s.len() ==> is_alphanumeric(#[trigger] s[i])
}

// ---------------------------------------------------------------------------
// Passwords and signing keys
// ---------------------------------------------------------------------------

/// The password that a value of the environment stands for.
pub open spec fn env_password(value: Option<Seq<char>>) -> Option<Seq<char>> {
    value
}

/// The signing key that a value of the environment stands for.
pub open spec fn env_secret(value: Option<Seq<char>>) -> Option<Seq<char>> {
    if value is Some && value->0.len() > 0 {
        value
    } else {
        None
    }
}

/// The password or signing key that a file holds.
pub open spec fn file_secret(contents: Option<Seq<char>>) -> Option<Seq<char>> {
    match contents {
        Some(c) => Some(trim(c)),
        None => None,
    }
}

/// The database password, by the environment: any value counts.
pub fn password_from_env(value: Option<String>) -> (r: EnvSecret)
    ensures
        r.used() == env_password(text_option(value)),
        match r {
            EnvSecret::Use(s) => value is Some && s@ == value->0@,
            EnvSecret::AskFile => value is None,
        },
{
    match value {
        Some(v) => EnvSecret::Use(v),
        None => EnvSecret::AskFile,
    }
}

/// A signing key, by the environment: any value but the empty one counts.
pub fn secret_from_env(value: Option<String>) -> (r: EnvSecret)
    ensures
        r.used() == env_secret(text_option(value)),
        match r {
            EnvSecret::Use(s) => value is Some && s@ == value->0@ && s@.len() > 0,
            EnvSecret::AskFile => value is None || value->0@.len() == 0,
        },
{
    match value {
        Some(v) => if v.as_str().is_empty() {
            EnvSecret::AskFile
        } else {
            EnvSecret::Use(v)
        },
        None => EnvSecret::AskFile,
    }
}

/// A password or a signing key, by its file: what the file holds, without the white
/// space around it. Without a file it is a new random text of length `len`.
pub fn secret_from_file(contents: Option<String>, len: usize) -> (r: FileSecret)
    requires
        len <= isize::MAX as usize,
    ensures
        r.used() == file_secret(text_option(contents)),
        match contents {
            Some(c) => r matches FileSecret::Use(s) && s@ == trim(c@),
            None => r matches FileSecret::Keep(s) && is_random_text(s@, len as nat),
        },
{
    match contents {
        Some(c) => FileSecret::Use(trim_text(c.as_str())),
        None => FileSecret::Keep(random_alphanumeric(len)),
    }
}

/// A random text that is kept in a file is read back as it is.
pub proof fn law_kept_secret_is_read_back(s: Seq<char>, len: nat)
    requires
        is_random_text(s, len),
    ensures
        trim(s) == s,
{
    if s.len() > 0 {
        assert(is_alphanumeric(s[0]));
        assert(is_alphanumeric(s[s.len() - 1]));
    }
    lemma_trim_is_identity(s);
}

// ---------------------------------------------------------------------------
// The payment key
// ---------------------------------------------------------------------------

/// Whether `s` is base64 text of 32 bytes, white space around it aside.
pub open spec fn is_payment_key(s: Seq<char>) -> bool {
    is_payment_key_decoded(trim(s), base64_decoded(trim(s)))
}

/// Whether a text without white space around it, which decodes to `decoded`, is base64
/// text of 32 bytes.
pub open spec fn is_payment_key_decoded(trimmed: Seq<char>, decoded: Option<Seq<u8>>) -> bool {
    trimmed.len() > 0 && decoded is Some && decoded->0.len() == 32
}

/// Whether a text without white space around it, which decodes to `decoded`, is base64
/// text of 32 bytes.
pub fn is_key_decoded(trimmed: &str, decoded: Option<Vec<u8>>) -> (valid: bool)
    ensures
        valid == is_payment_key_decoded(
            trimmed@,
            match decoded {
                Some(bytes) => Some(bytes@),
                None => None,
            },
        ),
{
    match decoded {
        Some(bytes) => !trimmed.is_empty() && bytes.len() == 32,
        None => false,
    }
}

/// Whether `s` is base64 text of 32 bytes, white space around it aside.
pub fn is_valid_base64_256_key(s: &str) -> (valid: bool)
    ensures
        valid == is_payment_key(s@),
{
    let trimmed = trim_text(s);
    let decoded = match base64_decode(trimmed.as_str()) {
        Ok(bytes) => Some(bytes),
        Err(_) => None,
    };
    is_key_decoded(trimmed.as_str(), decoded)
}

/// The payment key that a text holds.
pub open spec fn payment_key_in(text: Option<Seq<char>>) -> Option<Seq<char>> {
    if text is Some && is_payment_key(text->0) {
        Some(trim(text->0))
    } else {
        None
    }
}

/// The payment key, by the environment: a valid key counts, without the white space
/// around it; anything else is ignored.
pub fn payment_key_from_env(value: Option<String>) -> (r: EnvSecret)
    ensures
        r.used() == payment_key_in(text_option(value)),
        match r {
            EnvSecret::Use(s) => value is Some && is_payment_key(value->0@) && s@ == trim(
                value->0@,
            ) && is_payment_key(s@),
            EnvSecret::AskFile => value is None || !is_payment_key(value->0@),
        },
{
    match value {
        Some(v) => if is_valid_base64_256_key(v.as_str()) {
            proof {
                law_trim_is_idempotent(v@);
            }
            EnvSecret::Use(trim_text(v.as_str()))
        } else {
            EnvSecret::AskFile
        },
        None => EnvSecret::AskFile,
    }
}

/// The text of a new payment key.
pub fn encode_payment_key(key: &[u8; 32]) -> (text: String)
    ensures
        text@ == base64_encoded(key@),
        text@.len() == 44,
        trim(text@) == text@,
        base64_decoded(text@) == Some(key@),
        is_payment_key(text@),
{
    let text = base64_encode(key);
    proof {
        assert(is_base64(text@[0]));
        assert(is_base64(text@[43]));
        lemma_trim_is_identity(text@);
    }
    text
}

/// The payment key, by its file: a valid key counts, without the white space around it.
/// In place of anything else, a new random key is made. Either way it is a valid key,
/// and a file that holds it gives it again.
pub fn payment_key_from_file(contents: Option<String>) -> (r: FileSecret)
    ensures
        r.used() == payment_key_in(text_option(contents)),
        match r {
            FileSecret::Use(s) => contents is Some && is_payment_key(contents->0@) && s@ == trim(
                contents->0@,
            ),
            FileSecret::Keep(s) => {
                &&& contents is None || !is_payment_key(contents->0@)
                &&& exists|key: [u8; 32]|
                    s@ == #[trigger] base64_encoded(key@) && base64_decoded(s@) == Some(key@)
            },
        },
        is_payment_key(r.secret()),
        trim(r.secret()) == r.secret(),
{
    if let Some(c) = contents {
        if is_valid_base64_256_key(c.as_str()) {
            proof {
                law_trim_is_idempotent(c@);
            }
            return FileSecret::Use(trim_text(c.as_str()));
        }
    }
    let key = random_key();
    FileSecret::Keep(encode_payment_key(&key))
}

// ---------------------------------------------------------------------------
// Where secrets are kept
// ---------------------------------------------------------------------------

/// The file of the database password.
pub fn password_path(app_data: &DesktopPath) -> (p: DesktopPath)
    ensures
        p@ == app_data@.join("db_password"@),
{
    app_data.join("db_password")
}

/// The directory of the settings.
pub fn conf_dir(app_data: &DesktopPath) -> (p: DesktopPath)
    ensures
        p@ == app_data@.join("conf"@),
{
    app_data.join("conf")
}

/// The file of the signing key.
pub fn jwt_path(app_data: &DesktopPath) -> (p: DesktopPath)
    ensures
        p@ == app_data@.join("conf"@).join("jwt.key"@),
{
    conf_dir(app_data).join("jwt.key")
}

/// The file of the payment key.
pub fn payment_key_path(app_data: &DesktopPath) -> (p: DesktopPath)
    ensures
        p@ == app_data@.join("conf"@).join("payment.key"@),
{
    conf_dir(app_data).join("payment.key")
}

} // verus!
