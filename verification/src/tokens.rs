//! API key and API token issuing: the cleartext secret handed out once and
//! the SHA-256 hex digest that is stored in its place.

use vstd::prelude::*;
use vstd::string::*;
use crate::text::join_text;

verus! {

/// The SHA-256 digest of a byte string (sha2 `Sha256::digest`).
pub uninterp spec fn sha256_digest(data: Seq<u8>) -> Seq<u8>;

/// Lowercase hexadecimal digit for a value below 16.
pub open spec fn hex_digit_lower(d: nat) -> char {
    if d < 10 {
        (d + 48) as char
    } else {
        (d + 87) as char
    }
}

/// Lowercase hex text of a byte string: each byte as its high nibble then its
/// low nibble (hex `encode`).
pub open spec fn hex_lower(bytes: Seq<u8>) -> Seq<char>
    decreases bytes.len(),
{
    if bytes.len() == 0 {
        Seq::empty()
    } else {
        let b = bytes.last();
        hex_lower(bytes.drop_last()) + seq![hex_digit_lower((b / 16) as nat), hex_digit_lower((b % 16) as nat)]
    }
}

/// sha2 `Sha256::digest`: the 32-byte digest of `data`.
#[verifier::external_body]
fn sha256_bytes(data: &[u8]) -> (r: Vec<u8>)
    ensures
        r@ == sha256_digest(data@),
        r@.len() == 32,
{
    <sha2::Sha256 as sha2::Digest>::digest(data).to_vec()
}

/// hex `encode`: lowercase hexadecimal text of the bytes.
#[verifier::external_body]
fn hex_encode(bytes: &[u8]) -> (r: String)
    ensures
        r@ == hex_lower(bytes@),
{
    hex::encode(bytes)
}

/// What is stored for a secret: the lowercase hex SHA-256 digest of its UTF-8 bytes.
pub open spec fn stored_hash(secret: Seq<char>) -> Seq<char> {
    hex_lower(sha256_digest(vstd::utf8::encode_utf8(secret)))
}

/// The hash under which a token or key secret is stored.
pub fn token_hash(secret: &str) -> (r: String)
    ensures
        r@ == stored_hash(secret@),
        r@.len() == 64,
{
    let digest = sha256_bytes(secret.as_bytes());
    let r = hex_encode(digest.as_slice());
    proof {
        law_hex_shape(digest@);
    }
    r
}

/// A freshly issued secret and the hash to store for it.
pub struct IssuedToken {
    pub secret: String,
    pub hash: String,
}

/// Issues a token: the secret is the prefix followed by the random part, and
/// the stored hash is taken over that whole secret.
pub fn issue_token(prefix: &str, random_part: &str) -> (r: IssuedToken)
    ensures
        r.secret@ == prefix@ + random_part@,
        r.hash@ == stored_hash(r.secret@),
{
    let secret = join_text(prefix, random_part);
    let hash = token_hash(secret.as_str());
    IssuedToken { secret, hash }
}

/// An admin API key (`bzo_` and the random part).
pub fn issue_api_key(random_part: &str) -> (r: IssuedToken)
    ensures
        r.secret@ == "bzo_"@ + random_part@,
        r.hash@ == stored_hash(r.secret@),
{
    issue_token("bzo_", random_part)
}

/// A user API token issued from the web UI (`key_` and the random part).
pub fn issue_user_token(random_part: &str) -> (r: IssuedToken)
    ensures
        r.secret@ == "key_"@ + random_part@,
        r.hash@ == stored_hash(r.secret@),
{
    issue_token("key_", random_part)
}

/// Where the settings page goes after an API key was created: the success
/// message carries the secret, which is shown this once.
pub fn api_key_created_location(secret: &str) -> (r: String)
    ensures
        r@ == "/admin/settings?success=Token generated successfully. **IMPORTANT: Copy your token now, it will never be shown again!** Token value: "@ + secret@,
{
    join_text(
        "/admin/settings?success=Token generated successfully. **IMPORTANT: Copy your token now, it will never be shown again!** Token value: ",
        secret,
    )
}

/// Where the token page goes after a user token was created.
pub fn user_token_created_location(secret: &str) -> (r: String)
    ensures
        r@ == "/api-tokens?new_token="@ + secret@ + "&success=Token generated successfully"@,
{
    let mut out = join_text("/api-tokens?new_token=", secret);
    out.append("&success=Token generated successfully");
    out
}

/// Hex text is two lowercase hex digits per byte.
pub proof fn law_hex_shape(bytes: Seq<u8>)
    ensures
        hex_lower(bytes).len() == 2 * bytes.len(),
        forall|i: int| 0 <= i < hex_lower(bytes).len() ==> {
            let c = #[trigger] hex_lower(bytes)[i];
            ('0' <= c && c <= '9') || ('a' <= c && c <= 'f')
        },
    decreases bytes.len(),
{
    if bytes.len() > 0 {
        let b = bytes.last();
        law_hex_shape(bytes.drop_last());
        let pre = hex_lower(bytes.drop_last());
        let tail = seq![hex_digit_lower((b / 16) as nat), hex_digit_lower((b % 16) as nat)];
        assert(hex_lower(bytes) == pre + tail);
        assert forall|i: int| 0 <= i < hex_lower(bytes).len() implies {
            let c = #[trigger] hex_lower(bytes)[i];
            ('0' <= c && c <= '9') || ('a' <= c && c <= 'f')
        } by {
            if i < pre.len() {
                assert(hex_lower(bytes)[i] == pre[i]);
            } else {
                assert(hex_lower(bytes)[i] == tail[i - pre.len()]);
            }
        }
    }
}

} // verus!
