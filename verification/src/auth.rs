//! Sign-in with GitHub on the server side: the key and cipher that keep GitHub access tokens in
//! the session, the e-mail address taken from GitHub, and the OAuth addresses.
use vstd::prelude::*;
use vstd::utf8::*;

use crate::server_config::ensure_trailing_slash;
use crate::urls::{join_url, parse_url, url_joined, url_parsed, UrlError, UrlParts};

verus! {

broadcast use vstd::string::group_string_axioms;

/// Status for a session token that cannot be read back (Unauthorized).
pub const UNAUTHORIZED: u16 = 401;

/// Status for a failure of the server's own machinery (Internal Server Error).
pub const INTERNAL_SERVER_ERROR: u16 = 500;

/// Bytes of nonce stored in front of each sealed token.
pub const TOKEN_NONCE_LEN: usize = 12;

/// The SHA-256 digest of `data` (`ring::digest::digest` with `SHA256`).
pub uninterp spec fn sha256_of(data: Seq<u8>) -> Seq<u8>;

/// What sealing `plain` with AES-256-GCM under `key` and `nonce`, with no associated data,
/// gives: the ciphertext followed by the tag; nothing when `ring` refuses.
pub uninterp spec fn aead_sealed(key: Seq<u8>, nonce: Seq<u8>, plain: Seq<u8>) -> Option<Seq<u8>>;

/// What opening `sealed` (ciphertext and tag) with AES-256-GCM under `key` and `nonce`, with no
/// associated data, gives: the plaintext, or nothing when it does not authenticate.
pub uninterp spec fn aead_opened(key: Seq<u8>, nonce: Seq<u8>, sealed: Seq<u8>) -> Option<Seq<u8>>;

/// `bytes` in URL-safe base64 without padding.
pub uninterp spec fn b64_encoded(bytes: Seq<u8>) -> Seq<char>;

/// The bytes that the URL-safe, unpadded base64 `text` stands for; nothing when it is not
/// such base64.
pub uninterp spec fn b64_decoded(text: Seq<char>) -> Option<Seq<u8>>;

/// `ring::digest::digest(&SHA256, data)`, copied into an array of its 32 bytes.
#[verifier::external_body]
fn sha256(data: &[u8]) -> (r: [u8; 32])
    ensures
        r@ == sha256_of(data@),
{
    let digest = ring::digest::digest(&ring::digest::SHA256, data);
    let mut key = [0u8; 32];
    key.copy_from_slice(digest.as_ref());
    key
}

/// Twelve bytes from `ring::rand::SystemRandom`; nothing when the system source fails. Nothing
/// is said of the bytes themselves.
#[verifier::external_body]
fn random_nonce() -> (r: Option<Vec<u8>>)
    ensures
        r matches Some(n) ==> n@.len() == TOKEN_NONCE_LEN,
{
    let mut nonce = vec![0u8; TOKEN_NONCE_LEN];
    match ring::rand::SecureRandom::fill(&ring::rand::SystemRandom::new(), &mut nonce) {
        Ok(()) => Some(nonce),
        Err(_) => None,
    }
}

/// `LessSafeKey::seal_in_place_append_tag` with an `AES_256_GCM` key made from `key`, the nonce
/// `nonce` and no associated data. Besides naming the result, the contract states that the
/// 16-byte tag is appended to a ciphertext as long as `plain`, and what an AEAD promises:
/// opening the sealed bytes with the same key and nonce gives `plain` back.
#[verifier::external_body]
fn aead_seal(key: &[u8], nonce: &[u8], plain: &[u8]) -> (r: Option<Vec<u8>>)
    ensures
        match r {
            Some(c) => aead_sealed(key@, nonce@, plain@) == Some(c@) && c@.len() == plain@.len()
                + 16 && aead_opened(key@, nonce@, c@) == Some(plain@),
            None => aead_sealed(key@, nonce@, plain@) is None,
        },
{
    let unbound = ring::aead::UnboundKey::new(&ring::aead::AES_256_GCM, key).ok()?;
    let nonce = ring::aead::Nonce::try_assume_unique_for_key(nonce).ok()?;
    let mut in_out = plain.to_vec();
    ring::aead::LessSafeKey::new(unbound).seal_in_place_append_tag(
        nonce,
        ring::aead::Aad::empty(),
        &mut in_out,
    ).ok()?;
    Some(in_out)
}

/// `LessSafeKey::open_in_place` with an `AES_256_GCM` key made from `key`, the nonce `nonce` and
/// no associated data; the plaintext copied out.
#[verifier::external_body]
fn aead_open(key: &[u8], nonce: &[u8], sealed: &[u8]) -> (r: Option<Vec<u8>>)
    ensures
        match r {
            Some(p) => aead_opened(key@, nonce@, sealed@) == Some(p@),
            None => aead_opened(key@, nonce@, sealed@) is None,
        },
{
    let unbound = ring::aead::UnboundKey::new(&ring::aead::AES_256_GCM, key).ok()?;
    let nonce = ring::aead::Nonce::try_assume_unique_for_key(nonce).ok()?;
    let mut in_out = sealed.to_vec();
    let plain = ring::aead::LessSafeKey::new(unbound).open_in_place(
        nonce,
        ring::aead::Aad::empty(),
        &mut in_out,
    ).ok()?;
    Some(plain.to_vec())
}

/// `base64`'s `URL_SAFE_NO_PAD.encode`, which panics only when the encoded length overflows.
/// Besides naming the text, the contract states that decoding it gives `bytes` back.
#[verifier::external_body]
fn b64_encode(bytes: &[u8]) -> (r: String)
    requires
        bytes@.len() <= usize::MAX / 2,
    ensures
        r@ == b64_encoded(bytes@),
        b64_decoded(r@) == Some(bytes@),
{
    base64::Engine::encode(&base64::engine::general_purpose::URL_SAFE_NO_PAD, bytes)
}

/// `base64`'s `URL_SAFE_NO_PAD.decode`; the `DecodeError` of a failure is dropped.
#[verifier::external_body]
fn b64_decode(text: &str) -> (r: Option<Vec<u8>>)
    ensures
        match r {
            Some(b) => b64_decoded(text@) == Some(b@),
            None => b64_decoded(text@) is None,
        },
{
    base64::Engine::decode(&base64::engine::general_purpose::URL_SAFE_NO_PAD, text).ok()
}

/// `std::str::from_utf8`: the text when `bytes` are valid UTF-8 (the text's UTF-8 form is then
/// `bytes`), nothing otherwise.
#[verifier::external_body]
fn utf8_text(bytes: &[u8]) -> (r: Option<String>)
    ensures
        r is Some <==> valid_utf8(bytes@),
        r matches Some(s) ==> encode_utf8(s@) == bytes@,
{
    match std::str::from_utf8(bytes) {
        Ok(s) => Some(s.to_string()),
        Err(_) => None,
    }
}

/// The cipher key made from the session secret: the SHA-256 digest of its UTF-8 bytes.
pub fn token_key_from_secret(secret: &str) -> (r: [u8; 32])
    ensures
        r@ == sha256_of(encode_utf8(secret@)),
{
    sha256(secret.as_bytes())
}

/// What a stored token reads back as under `key`: base64-decoded, the first twelve bytes are
/// the nonce and the rest is opened with them, and the plaintext must be UTF-8. Anything else
/// is Unauthorized.
pub open spec fn opened_token(text: Seq<char>, key: Seq<u8>) -> Result<Seq<char>, u16> {
    match b64_decoded(text) {
        None => Err(UNAUTHORIZED),
        Some(d) => if d.len() < TOKEN_NONCE_LEN {
            Err(UNAUTHORIZED)
        } else {
            match aead_opened(key, d.take(TOKEN_NONCE_LEN as int), d.skip(TOKEN_NONCE_LEN as int)) {
                None => Err(UNAUTHORIZED),
                Some(p) => if valid_utf8(p) {
                    Ok(decode_utf8(p))
                } else {
                    Err(UNAUTHORIZED)
                },
            }
        },
    }
}

/// How a token is stored under `key` with `nonce`: the nonce followed by the sealed token bytes,
/// in base64; nothing when sealing fails.
pub open spec fn sealed_token(token: Seq<char>, key: Seq<u8>, nonce: Seq<u8>) -> Option<Seq<char>> {
    match aead_sealed(key, nonce, encode_utf8(token)) {
        Some(c) => Some(b64_encoded(nonce + c)),
        None => None,
    }
}

fn append_bytes(out: &mut Vec<u8>, b: &[u8])
    ensures
        final(out)@ == old(out)@ + b@,
{
    let mut i: usize = 0;
    while i < b.len()
        invariant
            i <= b@.len(),
            out@ == old(out)@ + b@.take(i as int),
        decreases b@.len() - i,
    {
        out.push(b[i]);
        i = i + 1;
        assert(out@ =~= old(out)@ + b@.take(i as int));
    }
    assert(b@.take(b@.len() as int) =~= b@);
}

fn copy_range(b: &[u8], from: usize, to: usize) -> (r: Vec<u8>)
    requires
        from <= to <= b@.len(),
    ensures
        r@ == b@.subrange(from as int, to as int),
{
    let mut r: Vec<u8> = Vec::new();
    let mut i: usize = from;
    while i < to
        invariant
            from <= i <= to <= b@.len(),
            r@ == b@.subrange(from as int, i as int),
        decreases to - i,
    {
        r.push(b[i]);
        i = i + 1;
        assert(r@ =~= b@.subrange(from as int, i as int));
    }
    r
}

/// Seals an access token under `key` with the twelve-byte `nonce` (see [`sealed_token`]);
/// Internal Server Error when sealing fails. What is stored reads back as the token.
pub fn seal_access_token(token: &str, key: &[u8; 32], nonce: &[u8]) -> (r: Result<String, u16>)
    requires
        nonce@.len() == TOKEN_NONCE_LEN,
        encode_utf8(token@).len() <= usize::MAX / 4,
    ensures
        match sealed_token(token@, key@, nonce@) {
            Some(s) => r matches Ok(t) && t@ == s,
            None => r == Err::<String, u16>(INTERNAL_SERVER_ERROR),
        },
        r matches Ok(t) ==> opened_token(t@, key@) == Ok::<Seq<char>, u16>(token@),
{
    let plain = token.as_bytes();
    let k = key.as_slice();
    let sealed = match aead_seal(k, nonce, plain) {
        Some(c) => c,
        None => {
            return Err(INTERNAL_SERVER_ERROR);
        },
    };
    let mut payload: Vec<u8> = Vec::new();
    append_bytes(&mut payload, nonce);
    append_bytes(&mut payload, sealed.as_slice());
    assert(payload@ =~= nonce@ + sealed@);
    let stored = b64_encode(payload.as_slice());
    proof {
        assert(payload@.take(TOKEN_NONCE_LEN as int) =~= nonce@);
        assert(payload@.skip(TOKEN_NONCE_LEN as int) =~= sealed@);
        encode_utf8_valid_utf8(token@);
        encode_utf8_decode_utf8(token@);
    }
    Ok(stored)
}

/// Seals an access token under `key` with a fresh random nonce; Internal Server Error when no
/// nonce can be had or sealing fails. What is stored reads back as the token.
pub fn encrypt_access_token(token: &str, key: &[u8; 32]) -> (r: Result<String, u16>)
    requires
        encode_utf8(token@).len() <= usize::MAX / 4,
    ensures
        r matches Err(code) ==> code == INTERNAL_SERVER_ERROR,
        r matches Ok(t) ==> opened_token(t@, key@) == Ok::<Seq<char>, u16>(token@),
        r matches Ok(t) ==> exists|nonce: Seq<u8>|
            nonce.len() == TOKEN_NONCE_LEN && sealed_token(token@, key@, nonce) == Some(t@),
{
    let nonce = match random_nonce() {
        Some(n) => n,
        None => {
            return Err(INTERNAL_SERVER_ERROR);
        },
    };
    seal_access_token(token, key, nonce.as_slice())
}

/// Reads a stored token back under `key` (see [`opened_token`]).
pub fn decrypt_access_token(token: &str, key: &[u8; 32]) -> (r: Result<String, u16>)
    ensures
        match opened_token(token@, key@) {
            Ok(t) => r matches Ok(s) && s@ == t,
            Err(code) => r == Err::<String, u16>(code),
        },
{
    let decoded = match b64_decode(token) {
        Some(d) => d,
        None => {
            return Err(UNAUTHORIZED);
        },
    };
    if decoded.len() < TOKEN_NONCE_LEN {
        return Err(UNAUTHORIZED);
    }
    let d = decoded.as_slice();
    let nonce = copy_range(d, 0, TOKEN_NONCE_LEN);
    let sealed = copy_range(d, TOKEN_NONCE_LEN, d.len());
    assert(nonce@ =~= decoded@.take(TOKEN_NONCE_LEN as int));
    assert(sealed@ =~= decoded@.skip(TOKEN_NONCE_LEN as int));
    let plain = match aead_open(key.as_slice(), nonce.as_slice(), sealed.as_slice()) {
        Some(p) => p,
        None => {
            return Err(UNAUTHORIZED);
        },
    };
    match utf8_text(plain.as_slice()) {
        Some(s) => {
            proof {
                encode_utf8_decode_utf8(s@);
            }
            Ok(s)
        },
        None => Err(UNAUTHORIZED),
    }
}

/// `value` ending in exactly the `/` it had, or with one appended.
pub open spec fn with_trailing_slash(value: Seq<char>) -> Seq<char> {
    if value.len() > 0 && value.last() == '/' {
        value
    } else {
        value.push('/')
    }
}

/// The OAuth callback address of the site at `base`: `auth/github/callback` resolved against
/// `base` with a trailing slash.
pub fn github_redirect_url(base: &str) -> (r: Result<String, UrlError>)
    ensures
        match url_joined(with_trailing_slash(base@), "auth/github/callback"@) {
            Some(u) => r matches Ok(s) && s@ == u,
            None => r is Err,
        },
{
    let base = ensure_trailing_slash(base);
    match join_url(base.as_str(), "auth/github/callback") {
        Ok(s) => Ok(s),
        Err(cause) => Err(UrlError { cause }),
    }
}

/// The GitHub API base URL: `value`, or `https://api.github.com/` when none is set, with a
/// trailing slash, parsed.
pub fn github_api_base_url(value: Option<&str>) -> (r: Result<UrlParts, UrlError>)
    ensures
        match url_parsed(
            with_trailing_slash(
                match value {
                    Some(v) => v@,
                    None => "https://api.github.com/"@,
                },
            ),
        ) {
            Some(p) => r matches Ok(parts) && parts@ == p,
            None => r is Err,
        },
{
    let base = match value {
        Some(v) => v,
        None => "https://api.github.com/",
    };
    let base = ensure_trailing_slash(base);
    match parse_url(base.as_str()) {
        Ok(p) => Ok(p),
        Err(cause) => Err(UrlError { cause }),
    }
}

/// An e-mail address of a GitHub account, as GitHub lists it.
#[derive(Debug, Clone, PartialEq, Eq)]
pub struct GithubEmail {
    pub email: String,
    pub primary: bool,
    pub verified: bool,
}

/// The first address of `emails` that is primary and verified, if any.
pub open spec fn first_primary_verified(emails: Seq<GithubEmail>) -> Option<int>
    decreases emails.len(),
{
    if emails.len() == 0 {
        None
    } else if emails[0].primary && emails[0].verified {
        Some(0)
    } else {
        match first_primary_verified(emails.drop_first()) {
            Some(i) => Some(i + 1),
            None => None,
        }
    }
}

/// The first address of `emails` that is verified, if any.
pub open spec fn first_verified(emails: Seq<GithubEmail>) -> Option<int>
    decreases emails.len(),
{
    if emails.len() == 0 {
        None
    } else if emails[0].verified {
        Some(0)
    } else {
        match first_verified(emails.drop_first()) {
            Some(i) => Some(i + 1),
            None => None,
        }
    }
}

/// The address kept for a user: the first primary verified one, else the first verified one.
pub open spec fn primary_email(emails: Seq<GithubEmail>) -> Option<Seq<char>> {
    match first_primary_verified(emails) {
        Some(i) => Some(emails[i].email@),
        None => match first_verified(emails) {
            Some(i) => Some(emails[i].email@),
            None => None,
        },
    }
}

proof fn lemma_first_indices(emails: Seq<GithubEmail>, k: int)
    requires
        0 <= k <= emails.len(),
    ensures
        first_primary_verified(emails) == (if (forall|j: int| 0 <= j < k ==> !(#[trigger] emails[j].primary && emails[j].verified)) {
            match first_primary_verified(emails.skip(k)) {
                Some(i) => Some(i + k),
                None => None,
            }
        } else {
            first_primary_verified(emails)
        }),
        first_verified(emails) == (if (forall|j: int| 0 <= j < k ==> !(#[trigger] emails[j].verified)) {
            match first_verified(emails.skip(k)) {
                Some(i) => Some(i + k),
                None => None,
            }
        } else {
            first_verified(emails)
        }),
    decreases k,
{
    if k > 0 {
        lemma_first_indices(emails, k - 1);
        let t = emails.skip(k - 1);
        assert(t.drop_first() =~= emails.skip(k));
        assert(t[0] == emails[k - 1]);
    } else {
        assert(emails.skip(0) =~= emails);
    }
}

/// The e-mail address kept for a user (see [`primary_email`]).
pub fn select_primary_email(emails: &[GithubEmail]) -> (r: Option<String>)
    ensures
        match primary_email(emails@) {
            Some(e) => r matches Some(s) && s@ == e,
            None => r is None,
        },
{
    let mut i: usize = 0;
    while i < emails.len()
        invariant
            i <= emails@.len(),
            forall|j: int| 0 <= j < i ==> !(#[trigger] emails@[j].primary && emails@[j].verified),
        decreases emails@.len() - i,
    {
        if emails[i].primary && emails[i].verified {
            proof {
                lemma_first_indices(emails@, i as int);
                assert(emails@.skip(i as int)[0] == emails@[i as int]);
            }
            return Some(emails[i].email.clone());
        }
        i = i + 1;
    }
    proof {
        lemma_first_indices(emails@, emails@.len() as int);
    }
    let mut k: usize = 0;
    while k < emails.len()
        invariant
            k <= emails@.len(),
            first_primary_verified(emails@) is None,
            forall|j: int| 0 <= j < k ==> !(#[trigger] emails@[j].verified),
        decreases emails@.len() - k,
    {
        if emails[k].verified {
            proof {
                lemma_first_indices(emails@, k as int);
                assert(emails@.skip(k as int)[0] == emails@[k as int]);
            }
            return Some(emails[k].email.clone());
        }
        k = k + 1;
    }
    proof {
        lemma_first_indices(emails@, emails@.len() as int);
    }
    None
}

} // verus!
