//! How an API key is obscured before it is written next to the settings, and
//! which key a loaded configuration ends up with.

use crate::domain::types::Mode;
use crate::settings::{default_modes, default_modes_of};
use crate::text::{blank, is_blank};
use vstd::prelude::*;
use vstd::string::StringSliceAdditionalSpecFns;
use vstd::utf8::{decode_utf8, encode_utf8, valid_utf8};

verus! {

/// How long a machine key is.
pub const MACHINE_KEY_LEN: usize = 32;

/// What every machine key's seed ends with.
pub open spec fn key_suffix() -> Seq<char> {
    "-dikt-key"@
}

/// The text a machine key is cut from: user, `@`, machine, and the suffix.
pub open spec fn key_seed(username: Seq<char>, computer: Seq<char>) -> Seq<char> {
    username + "@"@ + computer + key_suffix()
}

/// `seed` repeated as often as needed and cut to `length` bytes.
pub open spec fn cycled(seed: Seq<u8>, length: nat) -> Seq<u8> {
    Seq::new(length, |i: int| seed[i % (seed.len() as int)])
}

/// The key of a user on a machine: the seed's bytes, repeated, cut to
/// [`MACHINE_KEY_LEN`].
pub open spec fn machine_key_of(username: Seq<char>, computer: Seq<char>) -> Seq<u8> {
    cycled(encode_utf8(key_seed(username, computer)), MACHINE_KEY_LEN as nat)
}

/// Derives the key that obscures stored API keys for a user on a machine.
pub fn machine_key(username: &str, computer: &str) -> (key: Vec<u8>)
    ensures
        key@ == machine_key_of(username@, computer@),
        key@.len() == MACHINE_KEY_LEN,
{
    let seed_text = String::from_str(username).concat("@").concat(computer).concat("-dikt-key");
    let seed = seed_text.as_str().as_bytes_vec();
    proof {
        // The seed is never empty: it ends with the suffix, and every character takes a byte.
        reveal_strlit("-dikt-key");
        lemma_encoded_not_shorter(seed_text@);
    }
    let mut key: Vec<u8> = Vec::new();
    let mut i: usize = 0;
    while i < MACHINE_KEY_LEN
        invariant
            0 <= i <= MACHINE_KEY_LEN,
            seed@.len() > 0,
            key@.len() == i,
            forall|k: int| 0 <= k < i ==> key@[k] == seed@[k % (seed@.len() as int)],
        decreases MACHINE_KEY_LEN - i,
    {
        key.push(seed[i % seed.len()]);
        i += 1;
    }
    key
}

proof fn lemma_encoded_not_shorter(chars: Seq<char>)
    ensures
        encode_utf8(chars).len() >= chars.len(),
    decreases chars.len(),
{
    reveal_with_fuel(encode_utf8, 2);
    if chars.len() > 0 {
        lemma_encoded_not_shorter(chars.drop_first());
    }
}

/// `data` with each byte combined, by exclusive or, with the key byte at the
/// same position, the key repeating as often as needed.
pub open spec fn masked(data: Seq<u8>, key: Seq<u8>) -> Seq<u8> {
    Seq::new(data.len(), |i: int| data[i] ^ key[i % (key.len() as int)])
}

/// Masks `data` with `key`.
pub fn xor_with_key(data: &[u8], key: &[u8]) -> (out: Vec<u8>)
    requires
        key@.len() > 0,
    ensures
        out@ == masked(data@, key@),
{
    let mut out: Vec<u8> = Vec::new();
    let mut i: usize = 0;
    while i < data.len()
        invariant
            0 <= i <= data.len(),
            key@.len() > 0,
            out@.len() == i,
            forall|k: int| 0 <= k < i ==> out@[k] == data@[k] ^ key@[k % (key@.len() as int)],
        decreases data.len() - i,
    {
        out.push(data[i] ^ key[i % key.len()]);
        i += 1;
    }
    out
}

/// Masking twice with the same key gives the data back.
pub proof fn lemma_masked_twice(data: Seq<u8>, key: Seq<u8>)
    requires
        key.len() > 0,
    ensures
        masked(masked(data, key), key) == data,
{
    assert forall|i: int| 0 <= i < data.len() implies masked(masked(data, key), key)[i]
        == data[i] by {
        let d = data[i];
        let k = key[i % (key.len() as int)];
        assert((d ^ k) ^ k == d) by (bit_vector);
    }
}

/// The text `base64`'s standard engine encodes `bytes` to.
pub uninterp spec fn base64_text(bytes: Seq<u8>) -> Seq<char>;

/// The bytes `base64`'s standard engine decodes `text` to, if it accepts it.
pub uninterp spec fn base64_bytes(text: Seq<char>) -> Option<Seq<u8>>;

/// `Engine::encode` of the standard engine: the text depends on the bytes alone.
#[verifier::external_body]
fn base64_encode(bytes: &[u8]) -> (text: String)
    requires
        bytes@.len() <= usize::MAX / 2,
    ensures
        text@ == base64_text(bytes@),
{
    base64::Engine::encode(&base64::engine::general_purpose::STANDARD, bytes)
}

/// `Engine::decode` of the standard engine: whether the text is accepted, and
/// the bytes it stands for, depend on the text alone.
#[verifier::external_body]
fn base64_decode(text: &str) -> (bytes: Option<Vec<u8>>)
    ensures
        match bytes {
            Some(decoded) => base64_bytes(text@) == Some(decoded@),
            None => base64_bytes(text@) is None,
        },
{
    base64::Engine::decode(&base64::engine::general_purpose::STANDARD, text).ok()
}

/// `String::from_utf8`: the bytes are accepted exactly if they are UTF-8, and
/// the string then holds the characters they encode.
#[verifier::external_body]
fn string_from_utf8(bytes: Vec<u8>) -> (text: Option<String>)
    ensures
        match text {
            Some(decoded) => valid_utf8(bytes@) && decoded@ == decode_utf8(bytes@),
            None => !valid_utf8(bytes@),
        },
{
    String::from_utf8(bytes).ok()
}

/// The stored form of an API key: its bytes masked with the key, as text.
pub open spec fn encrypted(api_key: Seq<char>, key: Seq<u8>) -> Seq<char> {
    base64_text(masked(encode_utf8(api_key), key))
}

/// The API key a stored form stands for: the text's bytes, masked with the
/// key, read as UTF-8. Text that is not accepted, or bytes that are not
/// UTF-8, stand for nothing.
pub open spec fn decrypted(stored: Seq<char>, key: Seq<u8>) -> Option<Seq<char>> {
    match base64_bytes(stored) {
        Some(bytes) => if valid_utf8(masked(bytes, key)) {
            Some(decode_utf8(masked(bytes, key)))
        } else {
            None
        },
        None => None,
    }
}

/// Obscures an API key for storage.
pub fn encrypt_api_key(api_key: &str, key: &[u8]) -> (stored: String)
    requires
        key@.len() > 0,
        encode_utf8(api_key@).len() <= usize::MAX / 2,
    ensures
        stored@ == encrypted(api_key@, key@),
{
    let masked_bytes = xor_with_key(api_key.as_bytes(), key);
    base64_encode(masked_bytes.as_slice())
}

/// Recovers an API key from its stored form, if the form stands for one.
pub fn decrypt_api_key(stored: &str, key: &[u8]) -> (api_key: Option<String>)
    requires
        key@.len() > 0,
    ensures
        api_key.deep_view() == decrypted(stored@, key@),
{
    match base64_decode(stored) {
        Some(bytes) => string_from_utf8(xor_with_key(bytes.as_slice(), key)),
        None => None,
    }
}

// ---------------------------------------------------------------------------
// What a loaded configuration ends up with
// ---------------------------------------------------------------------------
/// The API key loaded settings carry, and whether it is to be remembered for
/// the provider: the provider's own key if there is one; else the key from
/// the credential store, remembered unless it is blank; else none.
pub open spec fn resolved_key(
    provider_key: Option<Seq<char>>,
    stored_key: Option<Seq<char>>,
) -> (Seq<char>, bool) {
    match provider_key {
        Some(key) => (key, false),
        None => match stored_key {
            Some(key) => (key, !blank(key)),
            None => (Seq::empty(), false),
        },
    }
}

/// Picks the API key of loaded settings.
pub fn resolve_api_key(provider_key: Option<String>, stored_key: Option<String>) -> (picked: (
    String,
    bool,
))
    ensures
        (picked.0@, picked.1) == resolved_key(provider_key.deep_view(), stored_key.deep_view()),
{
    match provider_key {
        Some(key) => (key, false),
        None => match stored_key {
            Some(key) => {
                let remember = !is_blank(key.as_str());
                (key, remember)
            },
            None => (String::new(), false),
        },
    }
}

/// What a saved configuration remembers for its provider: the API key, or
/// nothing if the key is blank.
pub fn provider_key_to_store(api_key: &str) -> (kept: Option<String>)
    ensures
        kept.deep_view() == if blank(api_key@) {
            None
        } else {
            Some(api_key@)
        },
{
    if is_blank(api_key) {
        None
    } else {
        Some(api_key.to_owned())
    }
}

/// The modes loaded settings carry: the stored ones, or the provider's
/// defaults where the stored configuration never knew about modes and has
/// none.
pub fn seed_modes(stored: Vec<Mode>, knew_modes: bool, provider: &str) -> (modes: Vec<Mode>)
    ensures
        knew_modes || stored@.len() > 0 ==> modes == stored,
        !knew_modes && stored@.len() == 0 ==> default_modes_of(provider@, modes.deep_view()),
{
    if !knew_modes && stored.len() == 0 {
        default_modes(provider)
    } else {
        stored
    }
}

} // verus!
