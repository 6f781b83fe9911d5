//! Authentication policy: modes, sources, roles, principals and session tokens.

use vstd::prelude::*;
use vstd::string::*;
use crate::text::lower_hex;
use sha2::Digest;
use base64::Engine;
use argon2::password_hash::{PasswordHasher, PasswordVerifier};

verus! {

/// How a backend accepts its users.
#[derive(Debug, Clone, Copy, PartialEq, Eq, Structural)]
pub enum AuthMode {
    Local,
    Sso,
    Hybrid,
}

/// Where a principal was authenticated.
#[derive(Debug, Clone, Copy, PartialEq, Eq, Structural)]
pub enum AuthSource {
    Local,
    Sso,
}

/// Permission level of an account.
#[derive(Debug, Clone, Copy, PartialEq, Eq, Structural)]
pub enum Role {
    ReadOnly,
    Standard,
    Admin,
}

/// A mode accepts a source when they name the same method, or when it is hybrid.
pub open spec fn mode_accepts(mode: AuthMode, source: AuthSource) -> bool {
    match (mode, source) {
        (AuthMode::Local, AuthSource::Local) => true,
        (AuthMode::Sso, AuthSource::Sso) => true,
        (AuthMode::Hybrid, _) => true,
        _ => false,
    }
}

/// In hybrid mode local accounts and SSO work side by side; the local and SSO modes each
/// accept their own source only.
pub proof fn lemma_mode_sources(source: AuthSource)
    ensures
        mode_accepts(AuthMode::Hybrid, source),
        mode_accepts(AuthMode::Local, source) <==> source == AuthSource::Local,
        mode_accepts(AuthMode::Sso, source) <==> source == AuthSource::Sso,
{
}

impl AuthMode {
    pub fn accepts(self, source: AuthSource) -> (r: bool)
        ensures
            r == mode_accepts(self, source),
    {
        match (self, source) {
            (AuthMode::Local, AuthSource::Local) => true,
            (AuthMode::Sso, AuthSource::Sso) => true,
            (AuthMode::Hybrid, _) => true,
            _ => false,
        }
    }
}

/// The textual name under which a role is stored.
pub open spec fn role_name(role: Role) -> Seq<char> {
    match role {
        Role::ReadOnly => "read_only"@,
        Role::Standard => "standard"@,
        Role::Admin => "admin"@,
    }
}

/// The role that a stored name denotes, if any.
pub open spec fn role_from_name(name: Seq<char>) -> Option<Role> {
    if name == "read_only"@ {
        Some(Role::ReadOnly)
    } else if name == "standard"@ {
        Some(Role::Standard)
    } else if name == "admin"@ {
        Some(Role::Admin)
    } else {
        None
    }
}

/// Standard and administrator accounts may write; read-only accounts may not.
pub open spec fn role_can_write(role: Role) -> bool {
    role != Role::ReadOnly
}

impl Role {
    pub fn as_str(self) -> (s: &'static str)
        ensures
            s@ == role_name(self),
    {
        match self {
            Role::ReadOnly => "read_only",
            Role::Standard => "standard",
            Role::Admin => "admin",
        }
    }

    pub fn parse(value: &str) -> (r: Option<Role>)
        ensures
            r == role_from_name(value@),
    {
        proof {
            reveal_strlit("read_only");
            reveal_strlit("standard");
            reveal_strlit("admin");
        }
        if crate::text::str_eq(value, "read_only") {
            Some(Role::ReadOnly)
        } else if crate::text::str_eq(value, "standard") {
            Some(Role::Standard)
        } else if crate::text::str_eq(value, "admin") {
            Some(Role::Admin)
        } else {
            None
        }
    }

    pub fn can_write(self) -> (r: bool)
        ensures
            r == role_can_write(self),
    {
        match self {
            Role::Standard | Role::Admin => true,
            Role::ReadOnly => false,
        }
    }
}

} // verus!

verus! {

/// An authenticated user, with the bearer token that authenticated it.
#[derive(Debug, Clone, PartialEq, Eq)]
pub struct AuthPrincipal {
    pub user_id: i64,
    pub username: String,
    pub role: Role,
    pub source: AuthSource,
    pub token: String,
    pub expires_at: Option<i64>,
}

/// An identity whose OIDC token passed signature, issuer, audience and expiry checks.
#[derive(Debug, Clone, PartialEq, Eq)]
pub struct VerifiedOidcIdentity {
    pub subject: String,
    pub username: String,
    pub role: Role,
    pub expires_at: i64,
}

/// The identity that verified OIDC claims describe: the preferred user name when the token
/// carries one, else the subject; the claimed role when it names one, else read-only.
pub fn oidc_identity_from_claims(
    subject: String,
    expires_at: i64,
    preferred_username: Option<String>,
    role: Option<String>,
) -> (r: VerifiedOidcIdentity)
    ensures
        r.subject@ == subject@,
        r.expires_at == expires_at,
        r.username@ == (match preferred_username {
            Some(name) => name@,
            None => subject@,
        }),
        r.role == (match role {
            Some(name) => match role_from_name(name@) {
                Some(parsed) => parsed,
                None => Role::ReadOnly,
            },
            None => Role::ReadOnly,
        }),
{
    let username = match preferred_username {
        Some(name) => name,
        None => subject.clone(),
    };
    let role = match role {
        Some(name) => match Role::parse(name.as_str()) {
            Some(parsed) => parsed,
            None => Role::ReadOnly,
        },
        None => Role::ReadOnly,
    };
    VerifiedOidcIdentity { subject, username, role, expires_at }
}

/// The SHA-256 digest of a byte sequence.
pub uninterp spec fn spec_sha256(data: Seq<u8>) -> Seq<u8>;

/// Wraps `sha2::Sha256::digest`. The digest depends on the data alone and, as the SHA-256
/// standard fixes, is 32 bytes long.
#[verifier::external_body]
pub(crate) fn sha256_digest(data: &[u8]) -> (r: Vec<u8>)
    ensures
        r@ == spec_sha256(data@),
        r@.len() == 32,
{
    sha2::Sha256::digest(data).to_vec()
}

/// The lower-case hexadecimal SHA-256 fingerprint of a text, as stored for a session token.
pub open spec fn fingerprint_of(token: &str) -> Seq<char> {
    crate::text::hex_lower(spec_sha256(token.spec_bytes()))
}

/// The lower-case hexadecimal SHA-256 digest of bytes, as `format!("{:x}", digest)` writes it.
pub fn sha256_hex(data: &[u8]) -> (r: String)
    ensures
        r@ == crate::text::hex_lower(spec_sha256(data@)),
        r@.len() == 64,
{
    let digest = sha256_digest(data);
    let r = lower_hex(digest.as_slice());
    proof {
        crate::text::lemma_hex_lower_len(spec_sha256(data@));
    }
    r
}

/// The fingerprint under which a session token is stored; the token itself is never kept.
pub fn token_fingerprint(token: &str) -> (r: String)
    ensures
        r@ == fingerprint_of(token),
        r@.len() == 64,
{
    sha256_hex(token.as_bytes())
}

/// The character of a six-bit value in the URL-safe base64 alphabet (RFC 4648, section 5).
pub open spec fn base64_url_char(v: int) -> char {
    if v < 26 {
        ('A' as int + v) as char
    } else if v < 52 {
        ('a' as int + (v - 26)) as char
    } else if v < 62 {
        ('0' as int + (v - 52)) as char
    } else if v == 62 {
        '-'
    } else {
        '_'
    }
}

/// A character of the URL-safe base64 alphabet.
pub open spec fn is_base64_url_char(c: char) -> bool {
    ('A' <= c <= 'Z') || ('a' <= c <= 'z') || ('0' <= c <= '9') || c == '-' || c == '_'
}

/// The URL-safe base64 writing of bytes without padding: every three bytes give four
/// characters of six bits each, and a last group of one or two bytes gives two or three.
pub open spec fn base64_url_no_pad_text(data: Seq<u8>) -> Seq<char>
    decreases data.len(),
{
    if data.len() == 0 {
        Seq::empty()
    } else if data.len() == 1 {
        seq![base64_url_char((data[0] as int) / 4), base64_url_char(((data[0] as int) % 4) * 16)]
    } else if data.len() == 2 {
        seq![
            base64_url_char((data[0] as int) / 4),
            base64_url_char(((data[0] as int) % 4) * 16 + (data[1] as int) / 16),
            base64_url_char(((data[1] as int) % 16) * 4),
        ]
    } else {
        seq![
            base64_url_char((data[0] as int) / 4),
            base64_url_char(((data[0] as int) % 4) * 16 + (data[1] as int) / 16),
            base64_url_char(((data[1] as int) % 16) * 4 + (data[2] as int) / 64),
            base64_url_char((data[2] as int) % 64),
        ] + base64_url_no_pad_text(data.skip(3))
    }
}

/// The writing of `n` bytes has `4 * (n / 3)` characters, and two or three more for a
/// last group of one or two bytes; every character is of the URL-safe alphabet.
pub proof fn lemma_base64_url_no_pad_shape(data: Seq<u8>)
    ensures
        base64_url_no_pad_text(data).len() == 4 * (data.len() / 3) + (if data.len() % 3 == 0 {
            0int
        } else {
            (data.len() % 3 + 1) as int
        }),
        forall|i: int|
            0 <= i < base64_url_no_pad_text(data).len() ==> is_base64_url_char(
                #[trigger] base64_url_no_pad_text(data)[i],
            ),
    decreases data.len(),
{
    if data.len() >= 3 {
        lemma_base64_url_no_pad_shape(data.skip(3));
        let head = seq![
            base64_url_char((data[0] as int) / 4),
            base64_url_char(((data[0] as int) % 4) * 16 + (data[1] as int) / 16),
            base64_url_char(((data[1] as int) % 16) * 4 + (data[2] as int) / 64),
            base64_url_char((data[2] as int) % 64),
        ];
        let tail = base64_url_no_pad_text(data.skip(3));
        assert(base64_url_no_pad_text(data) == head + tail);
        assert forall|i: int| 0 <= i < base64_url_no_pad_text(data).len() implies is_base64_url_char(
            #[trigger] base64_url_no_pad_text(data)[i],
        ) by {
            if i >= 4 {
                assert(base64_url_no_pad_text(data)[i] == tail[i - 4]);
            }
        }
    }
}

/// Wraps `rand::random`, which draws from the thread-local generator seeded by the
/// operating system. Nothing is stated of the bytes.
#[verifier::external_body]
fn random_token_bytes() -> (r: [u8; 32]) {
    rand::random::<[u8; 32]>()
}

/// Wraps `base64::engine::general_purpose::URL_SAFE_NO_PAD.encode`: the URL-safe alphabet
/// of RFC 4648 without padding, as the engine's documentation names it.
#[verifier::external_body]
fn base64_url_no_pad(data: &[u8]) -> (r: String)
    ensures
        r@ == base64_url_no_pad_text(data@),
{
    base64::engine::general_purpose::URL_SAFE_NO_PAD.encode(data)
}

/// A new opaque session token: 32 random bytes written in URL-safe base64 without
/// padding, 43 characters of the URL-safe alphabet.
pub fn generate_session_token() -> (r: String)
    ensures
        exists|bytes: Seq<u8>| bytes.len() == 32 && r@ == base64_url_no_pad_text(bytes),
        r@.len() == 43,
        forall|i: int| 0 <= i < r@.len() ==> is_base64_url_char(#[trigger] r@[i]),
{
    let bytes = random_token_bytes();
    let slice = bytes.as_slice();
    let r = base64_url_no_pad(slice);
    assert(slice@.len() == 32);
    proof {
        lemma_base64_url_no_pad_shape(slice@);
    }
    r
}

/// Whether `argon2::password_hash::PasswordHash::new` reads a text as a PHC hash string.
pub uninterp spec fn spec_phc_parses(encoded: Seq<char>) -> bool;

/// Whether `password` matches the PHC-encoded Argon2 hash `encoded`.
pub uninterp spec fn spec_password_matches(password: Seq<char>, encoded: Seq<char>) -> bool;

/// Wraps `argon2::Argon2::default().hash_password` on a salt freshly drawn by
/// `argon2::password_hash::SaltString::generate` from the operating system's generator,
/// writing the hash in PHC form or the failure as text. As the crate's documented example
/// shows, the PHC text of a hash parses back and verifies the password that it was made
/// from; the default hasher is Argon2id, whose PHC text starts with `$argon2id$`. As its
/// source shows, a generated salt is 16 bytes long and the default hasher
/// refuses only a password longer than `u32::MAX` bytes, so a shorter password is hashed.
#[verifier::external_body]
fn argon2_hash_fresh_salt(password: &str) -> (r: Result<String, String>)
    ensures
        r matches Ok(encoded) ==> spec_password_matches(password@, encoded@),
        r matches Ok(encoded) ==> spec_phc_parses(encoded@) && crate::text::has_prefix(encoded@, "$argon2id$"@),
        password.spec_bytes().len() <= u32::MAX ==> r is Ok,
{
    let salt = argon2::password_hash::SaltString::generate(&mut argon2::password_hash::rand_core::OsRng);
    match argon2::Argon2::default().hash_password(password.as_bytes(), &salt) {
        Ok(hash) => Ok(hash.to_string()),
        Err(error) => Err(error.to_string()),
    }
}

/// Wraps `argon2::password_hash::PasswordHash::new` and, when the text parses,
/// `argon2::Argon2::default().verify_password` on it: the two calls that decide whether a
/// password matches a stored PHC hash. The answer depends on the two texts alone, and a
/// text that `PasswordHash::new` does not read matches no password.
#[verifier::external_body]
fn argon2_verify(password: &str, encoded: &str) -> (r: bool)
    ensures
        r == spec_password_matches(password@, encoded@),
        !spec_phc_parses(encoded@) ==> !r,
{
    match argon2::password_hash::PasswordHash::new(encoded) {
        Ok(hash) => argon2::Argon2::default().verify_password(password.as_bytes(), &hash).is_ok(),
        Err(_) => false,
    }
}

/// Hashes a password with Argon2id and a fresh random salt, in PHC form.
/// A password of at most `u32::MAX` bytes is always hashed, and whatever salt was drawn,
/// the hash, written `$argon2id$...`, reads back as a PHC hash and verifies the password it
/// was made from.
pub fn hash_password(password: &str) -> (r: Result<String, String>)
    ensures
        r matches Ok(encoded) ==> spec_password_matches(password@, encoded@),
        r matches Ok(encoded) ==> spec_phc_parses(encoded@) && crate::text::has_prefix(encoded@, "$argon2id$"@),
        password.spec_bytes().len() <= u32::MAX ==> r is Ok,
{
    argon2_hash_fresh_salt(password)
}

/// Whether a password matches a stored PHC hash; a text that is no PHC hash matches nothing.
pub fn verify_password(password: &str, encoded: &str) -> (r: bool)
    ensures
        r == spec_password_matches(password@, encoded@),
        !spec_phc_parses(encoded@) ==> !r,
{
    argon2_verify(password, encoded)
}

} // verus!
