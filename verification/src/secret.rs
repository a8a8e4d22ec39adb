//! Keeping the API key unreadable at rest: the key's UTF-8 bytes are
//! XOR-ed with a machine key (the host name), prefixed with a format marker
//! and written as base64.
use vstd::prelude::*;
use vstd::utf8::{decode_utf8, encode_utf8, valid_utf8};
use vstd::string::StrSliceExecFns;
use base64::Engine;

use crate::config::{ConfigError, ConfigErrorView};

verus! {

broadcast use vstd::utf8::encode_utf8_valid_utf8, vstd::utf8::encode_utf8_decode_utf8;

// ---------------------------------------------------------------------------
// Calls into base64, the standard library's UTF-8 check and hostname
// ---------------------------------------------------------------------------

/// What the standard base64 alphabet with padding turns `bytes` into.
pub uninterp spec fn base64_encoding(bytes: Seq<u8>) -> Seq<char>;

/// What the standard base64 alphabet with padding reads `text` as, or `None`
/// where `text` is no valid encoding.
pub uninterp spec fn base64_decoding(text: Seq<char>) -> Option<Seq<u8>>;

/// The message that the base64 decoder's error prints for `text`.
pub uninterp spec fn base64_error_text(text: Seq<char>) -> Seq<char>;

/// The message that the standard library's UTF-8 error prints for `bytes`.
pub uninterp spec fn utf8_error_text(bytes: Seq<u8>) -> Seq<char>;

/// Calls `base64::engine::general_purpose::STANDARD.encode`. The contract
/// claims that the result depends on the bytes alone and that the same
/// engine's `decode` gives the bytes back; the engine panics only where the
/// encoded length overflows `usize`, which the bound rules out.
#[verifier::external_body]
fn base64_encode(bytes: &[u8]) -> (res: String)
    requires
        bytes@.len() <= usize::MAX / 2,
    ensures
        res@ == base64_encoding(bytes@),
        base64_decoding(res@) == Some(bytes@),
{
    base64::engine::general_purpose::STANDARD.encode(bytes)
}

/// Calls `base64::engine::general_purpose::STANDARD.decode`, turning its
/// error into the message it prints. The contract claims that success and
/// both results depend on the text alone.
#[verifier::external_body]
fn base64_decode(text: &str) -> (res: Result<Vec<u8>, String>)
    ensures
        match res {
            Ok(bytes) => base64_decoding(text@) == Some(bytes@),
            Err(m) => base64_decoding(text@) is None && m@ == base64_error_text(text@),
        },
{
    match base64::engine::general_purpose::STANDARD.decode(text) {
        Ok(bytes) => Ok(bytes),
        Err(e) => Err(e.to_string()),
    }
}

/// Calls `String::from_utf8`, which by its documentation succeeds exactly
/// on valid UTF-8 and then holds the decoded characters; the message of its
/// error is claimed to depend on the bytes alone.
#[verifier::external_body]
fn string_from_utf8(bytes: Vec<u8>) -> (res: Result<String, String>)
    ensures
        match res {
            Ok(s) => valid_utf8(bytes@) && s@ == decode_utf8(bytes@),
            Err(m) => !valid_utf8(bytes@) && m@ == utf8_error_text(bytes@),
        },
{
    match String::from_utf8(bytes) {
        Ok(s) => Ok(s),
        Err(e) => Err(e.to_string()),
    }
}

/// Calls `hostname::get` and converts the name to text, replacing what is
/// not UTF-8; `None` where the call fails. Nothing is claimed of the result,
/// which depends on the machine.
#[verifier::external_body]
fn host_name() -> (res: Option<String>) {
    match hostname::get() {
        Ok(name) => Some(name.to_string_lossy().into_owned()),
        Err(_) => None,
    }
}

// ---------------------------------------------------------------------------
// The scheme
// ---------------------------------------------------------------------------

/// The marker that opens every protected key: the bytes of `GHOSTWRITER_V1`.
pub open spec fn key_marker() -> Seq<u8> {
    seq![71u8, 72u8, 79u8, 83u8, 84u8, 87u8, 82u8, 73u8, 84u8, 69u8, 82u8, 95u8, 86u8, 49u8]
}

/// The machine key for a host name: its UTF-8 bytes, or those of
/// `ghostwriter` where the name could not be had.
pub open spec fn machine_key_for(name: Option<Seq<char>>) -> Seq<u8> {
    match name {
        Some(n) => encode_utf8(n),
        None => encode_utf8("ghostwriter"@),
    }
}

/// `data` with each byte XOR-ed with the key byte at the same position
/// modulo the key's length.
pub open spec fn xor_with(data: Seq<u8>, key: Seq<u8>) -> Seq<u8> {
    Seq::new(data.len(), |i: int| data[i] ^ key[i % (key.len() as int)])
}

/// The message given when the machine key is empty and a key would need it.
pub open spec fn empty_machine_key_text() -> Seq<char> {
    "machine key is empty"@
}

/// What protecting `api_key` with `machine_key` yields: the base64 text of
/// the marker followed by the XOR-ed UTF-8 bytes of the key. An empty
/// machine key cannot protect a non-empty key.
pub open spec fn protected_key(api_key: Seq<char>, machine_key: Seq<u8>) -> Result<
    Seq<char>,
    ConfigErrorView,
> {
    let bytes = encode_utf8(api_key);
    if machine_key.len() == 0 && bytes.len() > 0 {
        Err(ConfigErrorView::EncryptionError(empty_machine_key_text()))
    } else {
        Ok(base64_encoding(key_marker() + xor_with(bytes, machine_key)))
    }
}

/// What unprotecting the decoded bytes `data` with `machine_key` yields:
/// the format error without the marker; otherwise the UTF-8 text of the
/// XOR-ed rest, or the decoding error where it is no valid UTF-8.
pub open spec fn unprotected_bytes(data: Seq<u8>, machine_key: Seq<u8>) -> Result<
    Seq<char>,
    ConfigErrorView,
> {
    if data.len() < 14 || data.take(14) != key_marker() {
        Err(ConfigErrorView::InvalidKeyFormat)
    } else {
        let rest = data.skip(14);
        if machine_key.len() == 0 && rest.len() > 0 {
            Err(ConfigErrorView::DecryptionError(empty_machine_key_text()))
        } else {
            let plain = xor_with(rest, machine_key);
            if valid_utf8(plain) {
                Ok(decode_utf8(plain))
            } else {
                Err(ConfigErrorView::DecryptionError(utf8_error_text(plain)))
            }
        }
    }
}

/// What unprotecting the stored text `text` with `machine_key` yields: a
/// decryption error where it is no base64, else as for its bytes.
pub open spec fn unprotected_key(text: Seq<char>, machine_key: Seq<u8>) -> Result<
    Seq<char>,
    ConfigErrorView,
> {
    match base64_decoding(text) {
        None => Err(ConfigErrorView::DecryptionError(base64_error_text(text))),
        Some(data) => unprotected_bytes(data, machine_key),
    }
}

/// A string result as plain values.
pub open spec fn result_view(r: Result<String, ConfigError>) -> Result<Seq<char>, ConfigErrorView> {
    match r {
        Ok(s) => Ok(s@),
        Err(e) => Err(e@),
    }
}

/// XOR-ing twice with the same key gives the data back.
pub proof fn lemma_xor_twice(data: Seq<u8>, key: Seq<u8>)
    requires
        key.len() > 0 || data.len() == 0,
    ensures
        xor_with(xor_with(data, key), key) == data,
{
    let once = xor_with(data, key);
    let twice = xor_with(once, key);
    assert forall|i: int| 0 <= i < data.len() implies twice[i] == data[i] by {
        let a = data[i];
        let b = key[i % (key.len() as int)];
        assert((a ^ b) ^ b == a) by (bit_vector);
    }
    assert(twice =~= data);
}

/// A stored key masks every byte of the key with the machine key repeated
/// cyclically: where protecting succeeds, the stored text is the base64
/// encoding of the marker followed by, for each byte `i` of the key's
/// UTF-8 form, that byte XOR-ed with machine key byte `i` modulo its length.
pub proof fn law_stored_key_masks_every_byte(api_key: Seq<char>, machine_key: Seq<u8>)
    requires
        machine_key.len() > 0,
    ensures
        protected_key(api_key, machine_key) matches Ok(text) && exists|d: Seq<u8>|
            {
                let key = encode_utf8(api_key);
                &&& text == #[trigger] base64_encoding(d)
                &&& d.len() == 14 + key.len()
                &&& d.take(14) == key_marker()
                &&& forall|i: int|
                    0 <= i < key.len() ==> #[trigger] d[14 + i] == key[i] ^ machine_key[i
                        % (machine_key.len() as int)]
            },
{
    let key = encode_utf8(api_key);
    let d = key_marker() + xor_with(key, machine_key);
    assert(d.take(14) =~= key_marker());
    assert forall|i: int| 0 <= i < key.len() implies #[trigger] d[14 + i] == key[i]
        ^ machine_key[i % (machine_key.len() as int)] by {
        assert(d[14 + i] == xor_with(key, machine_key)[i]);
    }
}

/// A key stored with every byte masked by the machine key repeated
/// cyclically, after the marker, unprotects with that machine key to the
/// key itself.
pub proof fn law_masked_store_unprotects(api_key: Seq<char>, machine_key: Seq<u8>, data: Seq<u8>)
    requires
        machine_key.len() > 0,
        data.len() == 14 + encode_utf8(api_key).len(),
        data.take(14) == key_marker(),
        forall|i: int|
            0 <= i < encode_utf8(api_key).len() ==> #[trigger] data[14 + i] == encode_utf8(
                api_key,
            )[i] ^ machine_key[i % (machine_key.len() as int)],
    ensures
        unprotected_bytes(data, machine_key) == Ok::<Seq<char>, ConfigErrorView>(api_key),
{
    let key = encode_utf8(api_key);
    let rest = data.skip(14);
    let plain = xor_with(rest, machine_key);
    assert forall|i: int| 0 <= i < key.len() implies plain[i] == key[i] by {
        let a = key[i];
        let b = machine_key[i % (machine_key.len() as int)];
        assert(rest[i] == data[14 + i]);
        assert((a ^ b) ^ b == a) by (bit_vector);
    }
    assert(plain =~= key);
}

// ---------------------------------------------------------------------------
// Executable parts
// ---------------------------------------------------------------------------

/// The marker's bytes.
fn marker_bytes() -> (res: Vec<u8>)
    ensures
        res@ == key_marker(),
{
    let res: Vec<u8> = vec![71u8, 72u8, 79u8, 83u8, 84u8, 87u8, 82u8, 73u8, 84u8, 69u8, 82u8, 95u8, 86u8, 49u8];
    assert(res@ =~= key_marker());
    res
}

/// `data` XOR-ed with `key`, appended to `out`.
fn xor_into(out: &mut Vec<u8>, data: &[u8], key: &[u8])
    requires
        key@.len() > 0 || data@.len() == 0,
    ensures
        final(out)@ == old(out)@ + xor_with(data@, key@),
{
    let ghost start = out@;
    let mut i: usize = 0;
    while i < data.len()
        invariant
            key@.len() > 0 || data@.len() == 0,
            i <= data@.len(),
            out@ == start + xor_with(data@, key@).take(i as int),
        decreases data.len() - i,
    {
        out.push(data[i] ^ key[i % key.len()]);
        i = i + 1;
        assert(out@ =~= start + xor_with(data@, key@).take(i as int));
    }
    assert(xor_with(data@, key@).take(data@.len() as int) =~= xor_with(data@, key@));
}

/// The machine key for a host name.
pub fn machine_key_from(name: Option<String>) -> (res: Vec<u8>)
    ensures
        res@ == machine_key_for(crate::text::opt_view(name)),
{
    match name {
        Some(n) => n.as_str().as_bytes_vec(),
        None => "ghostwriter".as_bytes_vec(),
    }
}

/// The machine key: the bytes of this machine's host name.
pub fn get_machine_key() -> (res: Vec<u8>)
    ensures
        exists|name: Option<Seq<char>>| res@ == machine_key_for(name),
{
    let name = host_name();
    let ghost n = crate::text::opt_view(name);
    let res = machine_key_from(name);
    assert(res@ == machine_key_for(n));
    res
}

/// Protects `api_key` with `machine_key`. Whatever it returns, unprotecting
/// it with the same machine key gives the key back.
pub fn encrypt_api_key_with(api_key: &str, machine_key: &[u8]) -> (res: Result<String, ConfigError>)
    requires
        api_key@.len() <= usize::MAX / 16,
    ensures
        result_view(res) == protected_key(api_key@, machine_key@),
        res matches Ok(text) ==> unprotected_key(text@, machine_key@) == Ok::<Seq<char>, ConfigErrorView>(api_key@),
        res matches Ok(text) ==> base64_decoding(text@) matches Some(d) && d.len() == 14
            + encode_utf8(api_key@).len() && d.take(14) == key_marker() && forall|i: int|
            0 <= i < encode_utf8(api_key@).len() ==> #[trigger] d[14 + i] == encode_utf8(
                api_key@,
            )[i] ^ machine_key@[i % (machine_key@.len() as int)],
        machine_key@.len() > 0 ==> res is Ok,
{
    let bytes = api_key.as_bytes();
    if machine_key.len() == 0 && bytes.len() > 0 {
        return Err(ConfigError::EncryptionError("machine key is empty".to_string()));
    }
    let mut payload = marker_bytes();
    xor_into(&mut payload, bytes, machine_key);
    proof {
        lemma_utf8_len_bound(api_key@);
    }
    let text = base64_encode(payload.as_slice());
    proof {
        let plain = xor_with(bytes@, machine_key@);
        assert(payload@.take(14) =~= key_marker());
        assert(payload@.skip(14) =~= plain);
        lemma_xor_twice(bytes@, machine_key@);
    }
    Ok(text)
}

/// A UTF-8 encoding takes at most four bytes per character.
proof fn lemma_utf8_len_bound(s: Seq<char>)
    ensures
        encode_utf8(s).len() <= 4 * s.len(),
    decreases s.len(),
{
    if s.len() > 0 {
        lemma_utf8_len_bound(s.drop_first());
    }
}

/// Unprotects the decoded bytes `data` with `machine_key`.
pub fn decrypt_bytes_with(data: &[u8], machine_key: &[u8]) -> (res: Result<String, ConfigError>)
    ensures
        result_view(res) == unprotected_bytes(data@, machine_key@),
{
    let marker = marker_bytes();
    if data.len() < 14 {
        return Err(ConfigError::InvalidKeyFormat);
    }
    let mut k: usize = 0;
    while k < 14
        invariant
            k <= 14 <= data@.len(),
            marker@ == key_marker(),
            forall|t: int| 0 <= t < k ==> data@[t] == marker@[t],
        decreases 14 - k,
    {
        if data[k] != marker[k] {
            assert(data@.take(14)[k as int] != key_marker()[k as int]);
            return Err(ConfigError::InvalidKeyFormat);
        }
        k = k + 1;
    }
    assert(data@.take(14) =~= key_marker());
    let rest_len = data.len() - 14;
    if machine_key.len() == 0 && rest_len > 0 {
        return Err(ConfigError::DecryptionError("machine key is empty".to_string()));
    }
    let mut rest: Vec<u8> = Vec::new();
    let mut i: usize = 14;
    while i < data.len()
        invariant
            14 <= i <= data@.len(),
            rest@ == data@.subrange(14, i as int),
        decreases data.len() - i,
    {
        rest.push(data[i]);
        i = i + 1;
        assert(rest@ =~= data@.subrange(14, i as int));
    }
    assert(rest@ =~= data@.skip(14));
    let mut plain: Vec<u8> = Vec::new();
    xor_into(&mut plain, rest.as_slice(), machine_key);
    assert(plain@ =~= xor_with(data@.skip(14), machine_key@));
    match string_from_utf8(plain) {
        Ok(s) => Ok(s),
        Err(m) => Err(ConfigError::DecryptionError(m)),
    }
}

/// Unprotects the stored text `encrypted` with `machine_key`.
pub fn decrypt_api_key_with(encrypted: &str, machine_key: &[u8]) -> (res: Result<String, ConfigError>)
    ensures
        result_view(res) == unprotected_key(encrypted@, machine_key@),
{
    match base64_decode(encrypted) {
        Err(m) => Err(ConfigError::DecryptionError(m)),
        Ok(data) => decrypt_bytes_with(data.as_slice(), machine_key),
    }
}

/// Protects `api_key` with this machine's key, for storing in the settings.
/// Unprotecting the result with the same machine key gives the key back.
pub fn encrypt_api_key(api_key: &str) -> (res: Result<String, ConfigError>)
    requires
        api_key@.len() <= usize::MAX / 16,
    ensures
        exists|name: Option<Seq<char>>|
            {
                let mk = #[trigger] machine_key_for(name);
                &&& result_view(res) == protected_key(api_key@, mk)
                &&& res matches Ok(text) ==> unprotected_key(text@, mk) == Ok::<Seq<char>, ConfigErrorView>(api_key@)
            },
{
    let key = get_machine_key();
    encrypt_api_key_with(api_key, key.as_slice())
}

/// Unprotects a stored key with this machine's key.
pub fn decrypt_api_key(encrypted: &str) -> (res: Result<String, ConfigError>)
    ensures
        exists|name: Option<Seq<char>>|
            result_view(res) == unprotected_key(encrypted@, #[trigger] machine_key_for(name)),
{
    let key = get_machine_key();
    decrypt_api_key_with(encrypted, key.as_slice())
}

} // verus!
