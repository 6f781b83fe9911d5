//! The client's side of the backend API: the address of each route, and the checks that a
//! downloaded ROM must pass before it is published.

use vstd::prelude::*;
use vstd::string::*;
use crate::auth::{sha256_hex, spec_sha256};
use crate::text::{has_prefix, hex_lower, push_signed_decimal, signed_decimal, starts_with, str_eq, trim_end_char, trim_end_matches_char, ascii_lower, to_ascii_lowercase};

verus! {

/// A ROM that was downloaded, checked against its announced fingerprint and published.
#[derive(Debug, Clone, PartialEq, Eq)]
pub struct RomDownload {
    pub path: String,
    pub file_name: String,
    pub size_bytes: u64,
    pub sha256: String,
}

/// Why the client refuses a backend address or a download.
#[derive(Debug, Clone, Copy, PartialEq, Eq, Structural)]
pub enum ClientError {
    InvalidBackendUrl,
    InvalidRomName,
    InvalidRomFingerprint,
    RomFingerprintMismatch,
}

pub open spec fn client_error_text(e: ClientError) -> Seq<char> {
    match e {
        ClientError::InvalidBackendUrl => "URL backend invalide"@,
        ClientError::InvalidRomName => "nom de ROM invalide"@,
        ClientError::InvalidRomFingerprint => "empreinte ROM invalide"@,
        ClientError::RomFingerprintMismatch => "empreinte SHA-256 ROM invalide"@,
    }
}

impl ClientError {
    pub fn message(&self) -> (s: String)
        ensures
            s@ == client_error_text(*self),
    {
        match self {
            ClientError::InvalidBackendUrl => String::from_str("URL backend invalide"),
            ClientError::InvalidRomName => String::from_str("nom de ROM invalide"),
            ClientError::InvalidRomFingerprint => String::from_str("empreinte ROM invalide"),
            ClientError::RomFingerprintMismatch => String::from_str("empreinte SHA-256 ROM invalide"),
        }
    }
}

/// A backend address: HTTP or HTTPS, kept without trailing slashes.
pub open spec fn backend_url_verdict(url: Seq<char>) -> Option<Seq<char>> {
    let base = trim_end_char(url, '/');
    if has_prefix(base, "http://"@) || has_prefix(base, "https://"@) {
        Some(base)
    } else {
        None
    }
}

/// The client of one backend.
#[derive(Debug, Clone)]
pub struct BackendClient {
    base_url: String,
}

impl BackendClient {
    pub closed spec fn spec_base_url(&self) -> Seq<char> {
        self.base_url@
    }

    pub fn new(base_url: &str) -> (r: Result<BackendClient, ClientError>)
        ensures
            match backend_url_verdict(base_url@) {
                Some(base) => r matches Ok(client) && client.spec_base_url() == base,
                None => r == Err::<BackendClient, ClientError>(ClientError::InvalidBackendUrl),
            },
    {
        let base = trim_end_matches_char(base_url, '/');
        if starts_with(base, "http://") || starts_with(base, "https://") {
            Ok(BackendClient { base_url: String::from_str(base) })
        } else {
            Err(ClientError::InvalidBackendUrl)
        }
    }

    pub fn base_url(&self) -> (r: &str)
        ensures
            r@ == self.spec_base_url(),
    {
        self.base_url.as_str()
    }

    fn route(&self, path: &str) -> (r: String)
        ensures
            r@ == self.spec_base_url() + path@,
    {
        let mut s = self.base_url.clone();
        s.append(path);
        s
    }

    pub fn health_url(&self) -> (r: String)
        ensures
            r@ == self.spec_base_url() + "/api/v1/health"@,
    {
        self.route("/api/v1/health")
    }

    pub fn login_url(&self) -> (r: String)
        ensures
            r@ == self.spec_base_url() + "/api/v1/auth/login"@,
    {
        self.route("/api/v1/auth/login")
    }

    pub fn identity_url(&self) -> (r: String)
        ensures
            r@ == self.spec_base_url() + "/api/v1/auth/me"@,
    {
        self.route("/api/v1/auth/me")
    }

    pub fn catalog_url(&self) -> (r: String)
        ensures
            r@ == self.spec_base_url() + "/api/v1/catalog"@,
    {
        self.route("/api/v1/catalog")
    }

    pub fn rom_url(&self, game_id: i64) -> (r: String)
        ensures
            r@ == self.spec_base_url() + "/api/v1/games/"@ + signed_decimal(game_id as int) + "/rom"@,
    {
        let mut s = self.route("/api/v1/games/");
        push_signed_decimal(&mut s, game_id);
        s.append("/rom");
        s
    }

    pub fn override_url(&self, user_id: i64, game_id: i64) -> (r: String)
        ensures
            r@ == self.spec_base_url() + "/api/v1/users/"@ + signed_decimal(user_id as int)
                + "/overrides/"@ + signed_decimal(game_id as int),
    {
        let mut s = self.route("/api/v1/users/");
        push_signed_decimal(&mut s, user_id);
        s.append("/overrides/");
        push_signed_decimal(&mut s, game_id);
        s
    }
}

/// A downloaded ROM's name must be a plain, non-empty file name.
pub open spec fn valid_rom_name(name: Seq<char>) -> bool {
    name.len() > 0 && !name.contains('/') && !name.contains('\\') && !name.contains('\r')
        && !name.contains('\n')
}

/// The announced name of a downloaded ROM.
pub fn downloaded_file_name(header: Option<&str>) -> (r: Result<String, ClientError>)
    ensures
        match header {
            Some(h) => if valid_rom_name(h@) {
                r matches Ok(s) && s@ == h@
            } else {
                r == Err::<String, ClientError>(ClientError::InvalidRomName)
            },
            None => r == Err::<String, ClientError>(ClientError::InvalidRomName),
        },
{
    match header {
        None => Err(ClientError::InvalidRomName),
        Some(h) => {
            if h.unicode_len() > 0 && !crate::text::contains_char(h, '/') && !crate::text::contains_char(h, '\\')
                && !crate::text::contains_char(h, '\r') && !crate::text::contains_char(h, '\n') {
                Ok(String::from_str(h))
            } else {
                Err(ClientError::InvalidRomName)
            }
        },
    }
}

pub open spec fn is_hex_digit(c: char) -> bool {
    ('0' <= c && c <= '9') || ('a' <= c && c <= 'f') || ('A' <= c && c <= 'F')
}

/// A SHA-256 fingerprint as announced: 64 hexadecimal digits, in either case.
pub open spec fn valid_fingerprint(value: Seq<char>) -> bool {
    value.len() == 64 && forall|i: int| 0 <= i < value.len() ==> is_hex_digit(#[trigger] value[i])
}

/// The announced fingerprint of a downloaded ROM, in lower case.
pub fn expected_sha256(header: Option<&str>) -> (r: Result<String, ClientError>)
    ensures
        match header {
            Some(h) => if valid_fingerprint(h@) {
                r matches Ok(s) && s@ == ascii_lower(h@)
            } else {
                r == Err::<String, ClientError>(ClientError::InvalidRomFingerprint)
            },
            None => r == Err::<String, ClientError>(ClientError::InvalidRomFingerprint),
        },
{
    match header {
        None => Err(ClientError::InvalidRomFingerprint),
        Some(h) => {
            let n = h.unicode_len();
            if n != 64 {
                return Err(ClientError::InvalidRomFingerprint);
            }
            let mut i: usize = 0;
            while i < n
                invariant
                    n == h@.len(),
                    i <= n,
                    header == Some(h),
                    forall|k: int| 0 <= k < i ==> is_hex_digit(#[trigger] h@[k]),
                decreases n - i,
            {
                let c = h.get_char(i);
                if !(('0' <= c && c <= '9') || ('a' <= c && c <= 'f') || ('A' <= c && c <= 'F')) {
                    assert(!is_hex_digit(h@[i as int]));
                    return Err(ClientError::InvalidRomFingerprint);
                }
                i = i + 1;
            }
            Ok(to_ascii_lowercase(h))
        },
    }
}

/// Checks the received bytes against the announced fingerprint and gives their own.
pub fn check_rom_payload(bytes: &[u8], expected: &str) -> (r: Result<String, ClientError>)
    ensures
        hex_lower(spec_sha256(bytes@)) == expected@ ==> (r matches Ok(s) && s@ == expected@),
        hex_lower(spec_sha256(bytes@)) != expected@ ==> r == Err::<String, ClientError>(
            ClientError::RomFingerprintMismatch,
        ),
{
    let actual = sha256_hex(bytes);
    if str_eq(actual.as_str(), expected) {
        Ok(actual)
    } else {
        Err(ClientError::RomFingerprintMismatch)
    }
}

/// The file name carries an extension: it has a dot after its first character.
pub open spec fn has_extension(name: Seq<char>) -> bool {
    exists|i: int| 0 < i < name.len() && name[i] == '.'
}

/// The temporary name under which a ROM is written before it is published: its extension
/// followed by `.partial`, or `.download.partial` for a name without extension.
pub open spec fn partial_name_text(name: Seq<char>) -> Seq<char> {
    if has_extension(name) {
        name + ".partial"@
    } else {
        name + ".download.partial"@
    }
}

/// The temporary name of a downloaded ROM, next to where it will be published.
pub fn partial_file_name(file_name: &str) -> (r: String)
    ensures
        r@ == partial_name_text(file_name@),
{
    let n = file_name.unicode_len();
    let mut found = false;
    let mut i: usize = 1;
    while i < n
        invariant
            n == file_name@.len(),
            1 <= i <= n || n == 0,
            found <==> exists|k: int| 0 < k < i && k < n && file_name@[k] == '.',
        decreases n - i,
    {
        if file_name.get_char(i) == '.' {
            found = true;
        }
        i = i + 1;
    }
    let mut r = String::from_str(file_name);
    if found {
        r.append(".partial");
    } else {
        r.append(".download.partial");
    }
    r
}

} // verus!
