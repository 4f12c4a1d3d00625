//! Credential derivation and payload sealing.
//!
//! Both peers hold the same secret after the key exchange. Everything they
//! need to agree on afterwards is a pure function of that secret and of the
//! receiver's name and link-layer address, so no further handshake is needed.

use crate::error::FlingError;
use crate::text::{first_chars, head, hex_digit, hex_digit_str, last_chars, lower, lower_letter_str, tail, chars_of};
use chacha20poly1305::aead::{Aead, KeyInit};
use rand::RngCore;
use vstd::prelude::*;
use vstd::slice::{slice_subrange, slice_to_vec};
use vstd::string::*;
use vstd::utf8::is_ascii_chars;

verus! {

/// Length of the shared secret, in bytes.
pub const KEY_LEN: usize = 32;

/// Length of the nonce that precedes a sealed payload, in bytes.
pub const NONCE_LEN: usize = 12;

/// Length of the authentication tag that ends a sealed payload, in bytes.
pub const TAG_LEN: usize = 16;

/// Lowercase hexadecimal encoding: two digits per byte, high nibble first.
pub open spec fn hex_of(bytes: Seq<u8>) -> Seq<char> {
    Seq::new(
        2 * bytes.len(),
        |i: int|
            hex_digit(
                if i % 2 == 0 {
                    bytes[i / 2] as int / 16
                } else {
                    bytes[i / 2] as int % 16
                },
            ),
    )
}

/// The tag that starts every derived name: `fling-`.
pub open spec fn namespace_tag() -> Seq<char> {
    seq!['f', 'l', 'i', 'n', 'g', '-']
}

/// The network password for a receiver called `name` and a secret `key`:
/// the tag, up to two leading characters of the name, a hyphen, and up to
/// ten trailing digits of the key in hexadecimal.
pub open spec fn network_password(name: Seq<char>, key: Seq<u8>) -> Seq<char> {
    namespace_tag() + head(name, 2) + seq!['-'] + tail(hex_of(key), 10)
}

/// A link-layer address without its `:` separators, ASCII letters lower-cased.
pub open spec fn compact(address: Seq<char>) -> Seq<char>
    decreases address.len(),
{
    if address.len() == 0 {
        Seq::empty()
    } else if address.last() == ':' {
        compact(address.drop_last())
    } else {
        compact(address.drop_last()).push(lower(address.last()))
    }
}

/// The part of a link-layer address that enters the network name: its last
/// four digits once compacted.
pub open spec fn link_fragment_of(address: Seq<char>) -> Seq<char> {
    tail(compact(address), 4)
}

/// The network name: the tag, the receiver's name, the address fragment and
/// the last two characters of the password, joined by hyphens.
pub open spec fn network_ssid(name: Seq<char>, password: Seq<char>, fragment: Seq<char>) -> Seq<
    char,
> {
    namespace_tag() + name + seq!['-'] + fragment + seq!['-'] + tail(password, 2)
}

/// Writes a key in lowercase hexadecimal.
pub fn key_to_hex_string(key: &[u8]) -> (hex: String)
    ensures
        hex@ == hex_of(key@),
{
    let mut hex = String::new();
    let mut i: usize = 0;
    while i < key.len()
        invariant
            i <= key.len(),
            hex@ == hex_of(key@.take(i as int)),
        decreases key.len() - i,
    {
        let byte = key[i];
        hex.append(hex_digit_str(byte / 16));
        hex.append(hex_digit_str(byte % 16));
        i += 1;
        assert(hex@ =~= hex_of(key@.take(i as int)));
    }
    assert(key@.take(key.len() as int) =~= key@);
    hex
}

/// Derives the password of the ephemeral network from the receiver's name
/// and the session secret. Inputs shorter than the parts taken from them
/// are taken whole.
pub fn generate_network_password(hostname: &str, key: &[u8]) -> (password: String)
    ensures
        password@ == network_password(hostname@, key@),
{
    let hex_key = key_to_hex_string(key);
    let mut password = String::from_str("fling-");
    proof {
        reveal_strlit("fling-");
        reveal_strlit("-");
        assert("fling-"@ =~= namespace_tag());
        assert("-"@ =~= seq!['-']);
    }
    password.append(first_chars(hostname, 2));
    password.append("-");
    password.append(last_chars(hex_key.as_str(), 10));
    password
}

/// Extracts from a link-layer address the fragment that enters the network
/// name.
pub fn link_fragment(address: &str) -> (fragment: String)
    ensures
        fragment@ == link_fragment_of(address@),
{
    let chars = chars_of(address);
    let mut compacted = String::new();
    let mut i: usize = 0;
    while i < chars.len()
        invariant
            i <= chars.len(),
            chars@ == address@,
            compacted@ == compact(chars@.take(i as int)),
        decreases chars.len() - i,
    {
        let c = chars[i];
        proof {
            assert(chars@.take(i + 1).drop_last() =~= chars@.take(i as int));
        }
        if c != ':' {
            if 'A' <= c && c <= 'Z' {
                compacted.append(lower_letter_str(c));
            } else {
                compacted.append(address.substring_char(i, i + 1));
                assert(address@.subrange(i as int, i + 1) =~= seq![c]);
            }
            assert(compacted@ =~= compact(chars@.take(i as int)).push(lower(c)));
        }
        i += 1;
    }
    assert(chars@.take(chars.len() as int) =~= chars@);
    String::from_str(last_chars(compacted.as_str(), 4))
}

/// Derives the name of the ephemeral network from the receiver's name, the
/// network password and the fragment of the receiver's address.
pub fn derive_ssid(name: &str, password: &str, fragment: &str) -> (ssid: String)
    ensures
        ssid@ == network_ssid(name@, password@, fragment@),
{
    let mut ssid = String::from_str("fling-");
    proof {
        reveal_strlit("fling-");
        reveal_strlit("-");
        assert("fling-"@ =~= namespace_tag());
        assert("-"@ =~= seq!['-']);
    }
    ssid.append(name);
    ssid.append("-");
    ssid.append(fragment);
    ssid.append("-");
    ssid.append(last_chars(password, 2));
    ssid
}

/// The password has one shape whatever the lengths of its inputs: the tag,
/// then as much of the name as there is, up to two characters, then a
/// hyphen, then as much of the hexadecimal key as there is, up to ten
/// digits. A short name or a short key shortens its own part and nothing
/// else.
pub proof fn password_shape(name: Seq<char>, key: Seq<u8>)
    ensures
        ({
            let password = network_password(name, key);
            let kept = if name.len() < 2 {
                name.len() as int
            } else {
                2
            };
            let digits = if 2 * key.len() < 10 {
                2 * key.len() as int
            } else {
                10
            };
            &&& password.len() == 6 + kept + 1 + digits
            &&& password.subrange(0, 6) == namespace_tag()
            &&& password.subrange(6, 6 + kept) == name.subrange(0, kept)
            &&& password[6 + kept] == '-'
            &&& password.subrange(7 + kept, 7 + kept + digits) == hex_of(key).subrange(
                2 * key.len() - digits,
                2 * key.len() as int,
            )
        }),
{
    let password = network_password(name, key);
    let kept = if name.len() < 2 {
        name.len() as int
    } else {
        2
    };
    let digits = if 2 * key.len() < 10 {
        2 * key.len() as int
    } else {
        10
    };
    assert(head(name, 2) =~= name.subrange(0, kept));
    assert(tail(hex_of(key), 10) =~= hex_of(key).subrange(2 * key.len() - digits, 2 * key.len() as int));
    assert(password.subrange(0, 6) =~= namespace_tag());
    assert(password.subrange(6, 6 + kept) =~= name.subrange(0, kept));
    assert(password.subrange(7 + kept, 7 + kept + digits) =~= hex_of(key).subrange(
        2 * key.len() - digits,
        2 * key.len() as int,
    ));
}

/// Deriving the password twice from the same name and the same key gives
/// the same password.
pub proof fn password_is_reproducible(name: Seq<char>, key: Seq<u8>, again_name: Seq<char>, again_key: Seq<u8>)
    requires
        name == again_name,
        key == again_key,
    ensures
        network_password(name, key) == network_password(again_name, again_key),
{
}

/// The name and password of the ephemeral network.
#[derive(Debug)]
pub struct NetworkCredentials {
    pub ssid: String,
    pub password: String,
}

/// What a [`NetworkCredentials`] value holds, as character sequences.
pub struct CredentialsView {
    pub ssid: Seq<char>,
    pub password: Seq<char>,
}

impl View for NetworkCredentials {
    type V = CredentialsView;

    open spec fn view(&self) -> CredentialsView {
        CredentialsView { ssid: self.ssid@, password: self.password@ }
    }
}

/// The credentials both peers arrive at from the receiver's name, the shared
/// secret and the receiver's link-layer address.
pub open spec fn credentials_for(name: Seq<char>, key: Seq<u8>, address: Seq<char>) -> CredentialsView {
    CredentialsView {
        ssid: network_ssid(name, network_password(name, key), link_fragment_of(address)),
        password: network_password(name, key),
    }
}

/// What a wireless network accepts: an ASCII name of 1 to 32 characters and
/// an ASCII passphrase of 8 to 63 characters.
pub open spec fn wifi_compatible(c: CredentialsView) -> bool {
    &&& is_ascii_chars(c.ssid)
    &&& 1 <= c.ssid.len() <= 32
    &&& is_ascii_chars(c.password)
    &&& 8 <= c.password.len() <= 63
}

/// Every digit of a hexadecimal encoding is an ASCII character.
pub proof fn hex_is_ascii(bytes: Seq<u8>)
    ensures
        is_ascii_chars(hex_of(bytes)),
        hex_of(bytes).len() == 2 * bytes.len(),
{
    assert forall|i: int| 0 <= i < hex_of(bytes).len() implies '\0' <= #[trigger] hex_of(bytes)[i]
        <= '\u{7f}' by {
        let byte = bytes[i / 2] as int;
        assert(0 <= byte / 16 < 16 && 0 <= byte % 16 < 16);
    }
}

/// A compacted address holds no separator and no ASCII capital.
pub proof fn compact_is_plain(address: Seq<char>)
    ensures
        forall|i: int|
            0 <= i < compact(address).len() ==> (#[trigger] compact(address)[i]) != ':' && !('A' <= compact(
                address,
            )[i] <= 'Z'),
    decreases address.len(),
{
    if address.len() > 0 {
        let front = compact(address.drop_last());
        let last = address.last();
        compact_is_plain(address.drop_last());
        assert forall|i: int| 0 <= i < compact(address).len() implies (#[trigger] compact(address)[i])
            != ':' && !('A' <= compact(address)[i] <= 'Z') by {
            if i < front.len() {
                assert(compact(address)[i] == front[i]);
            } else {
                assert(last != ':');
                assert(compact(address)[i] == lower(last));
                if 'A' <= last <= 'Z' {
                    assert(lower(last) as int == last as int + 32);
                }
            }
        }
    }
}

/// The fragment of an address has four characters at most, none of them a
/// separator or an ASCII capital, whatever the address looks like.
pub proof fn fragment_is_plain(address: Seq<char>)
    ensures
        link_fragment_of(address).len() <= 4,
        forall|i: int|
            0 <= i < link_fragment_of(address).len() ==> (#[trigger] link_fragment_of(address)[i]) != ':'
                && !('A' <= link_fragment_of(address)[i] <= 'Z'),
{
    compact_is_plain(address);
    let whole = compact(address);
    let fragment = link_fragment_of(address);
    assert forall|i: int| 0 <= i < fragment.len() implies (#[trigger] fragment[i]) != ':' && !('A'
        <= fragment[i] <= 'Z') by {
        if whole.len() >= 4 {
            assert(fragment[i] == whole[whole.len() - 4 + i]);
        } else {
            assert(fragment[i] == whole[i]);
        }
    }
}

/// Compacting an ASCII address leaves it ASCII and makes it no longer.
pub proof fn compact_is_ascii(address: Seq<char>)
    requires
        is_ascii_chars(address),
    ensures
        is_ascii_chars(compact(address)),
        compact(address).len() <= address.len(),
    decreases address.len(),
{
    if address.len() > 0 {
        let front = address.drop_last();
        assert forall|i: int| 0 <= i < front.len() implies '\0' <= #[trigger] front[i] <= '\u{7f}' by {
            assert(front[i] == address[i]);
        }
        compact_is_ascii(front);
        assert('\0' <= address[address.len() - 1] <= '\u{7f}');
    }
}

/// The credentials derived for a receiver with an ASCII name of at most
/// eighteen characters, from a secret of full length and an ASCII address,
/// are credentials that a wireless network accepts.
pub proof fn derived_credentials_fit(name: Seq<char>, key: Seq<u8>, address: Seq<char>)
    requires
        is_ascii_chars(name),
        name.len() <= 18,
        key.len() == KEY_LEN,
        is_ascii_chars(address),
    ensures
        wifi_compatible(credentials_for(name, key, address)),
{
    let credentials = credentials_for(name, key, address);
    let password = network_password(name, key);
    let fragment = link_fragment_of(address);
    hex_is_ascii(key);
    compact_is_ascii(address);
    let hex = hex_of(key);
    let digits = tail(hex, 10);
    assert(digits.len() == 10);
    assert forall|i: int| 0 <= i < digits.len() implies '\0' <= #[trigger] digits[i] <= '\u{7f}' by {
        assert(digits[i] == hex[hex.len() - 10 + i]);
    }
    let start = head(name, 2);
    assert forall|i: int| 0 <= i < start.len() implies '\0' <= #[trigger] start[i] <= '\u{7f}' by {
        assert(start[i] == name[i]);
    }
    assert(fragment.len() <= 4);
    assert forall|i: int| 0 <= i < fragment.len() implies '\0' <= #[trigger] fragment[i] <= '\u{7f}' by {
        let whole = compact(address);
        if whole.len() >= 4 {
            assert(fragment[i] == whole[whole.len() - 4 + i]);
        } else {
            assert(fragment[i] == whole[i]);
        }
    }
    assert forall|i: int| 0 <= i < password.len() implies '\0' <= #[trigger] password[i] <= '\u{7f}' by {
        if i < 6 {
            assert(password[i] == namespace_tag()[i]);
        } else if i < 6 + start.len() {
            assert(password[i] == start[i - 6]);
        } else if i == 6 + start.len() {
            assert(password[i] == '-');
        } else {
            assert(password[i] == digits[i - 7 - start.len()]);
        }
    }
    let ending = tail(password, 2);
    assert(ending.len() == 2);
    assert forall|i: int| 0 <= i < ending.len() implies '\0' <= #[trigger] ending[i] <= '\u{7f}' by {
        assert(ending[i] == password[password.len() - 2 + i]);
    }
    let ssid = credentials.ssid;
    assert(ssid == namespace_tag() + name + seq!['-'] + fragment + seq!['-'] + ending);
    assert forall|i: int| 0 <= i < ssid.len() implies '\0' <= #[trigger] ssid[i] <= '\u{7f}' by {
        if i < 6 {
            assert(ssid[i] == namespace_tag()[i]);
        } else if i < 6 + name.len() {
            assert(ssid[i] == name[i - 6]);
        } else if i == 6 + name.len() {
            assert(ssid[i] == '-');
        } else if i < 7 + name.len() + fragment.len() {
            assert(ssid[i] == fragment[i - 7 - name.len()]);
        } else if i == 7 + name.len() + fragment.len() {
            assert(ssid[i] == '-');
        } else {
            assert(ssid[i] == ending[i - 8 - name.len() - fragment.len()]);
        }
    }
}

impl Clone for NetworkCredentials {
    fn clone(&self) -> (copy: Self)
        ensures
            copy == *self,
    {
        NetworkCredentials { ssid: self.ssid.clone(), password: self.password.clone() }
    }
}

impl NetworkCredentials {
    /// Derives the credentials of the ephemeral network. Sender and receiver
    /// call this with the same three inputs and so obtain the same network.
    pub fn derive(name: &str, key: &[u8], address: &str) -> (credentials: NetworkCredentials)
        ensures
            credentials@ == credentials_for(name@, key@, address@),
    {
        let password = generate_network_password(name, key);
        let fragment = link_fragment(address);
        let ssid = derive_ssid(name, password.as_str(), fragment.as_str());
        NetworkCredentials { ssid, password }
    }

    /// Whether a wireless network can carry these credentials.
    pub fn fits_wifi(&self) -> (ok: bool)
        ensures
            ok == wifi_compatible(self@),
    {
        wifi_accepts(self.ssid.as_str(), self.password.as_str())
    }
}

/// Whether a wireless network can carry this name and this passphrase.
pub fn wifi_accepts(ssid: &str, password: &str) -> (ok: bool)
    ensures
        ok == wifi_compatible(CredentialsView { ssid: ssid@, password: password@ }),
{
    if !ssid.is_ascii() || !password.is_ascii() {
        return false;
    }
    let ssid_len = ssid.unicode_len();
    let password_len = password.unicode_len();
    1 <= ssid_len && ssid_len <= 32 && 8 <= password_len && password_len <= 63
}

/// The session secret: exactly [`KEY_LEN`] bytes.
#[derive(Debug)]
pub struct SharedSecret {
    bytes: Vec<u8>,
}

impl View for SharedSecret {
    type V = Seq<u8>;

    closed spec fn view(&self) -> Seq<u8> {
        self.bytes@
    }
}

/// Draws `len` bytes from `rand::thread_rng()` with `RngCore::fill_bytes`.
/// Only the number of bytes is claimed; their values are whatever the
/// generator gave. The generator panics where the operating system has no
/// entropy to seed it with.
#[verifier::external_body]
fn random_bytes(len: usize) -> (bytes: Vec<u8>)
    ensures
        bytes@.len() == len,
{
    let mut bytes = vec![0u8; len];
    rand::thread_rng().fill_bytes(&mut bytes);
    bytes
}

/// Generates the key material of a new session.
pub fn generate_encryption_key() -> (key: Vec<u8>)
    ensures
        key@.len() == KEY_LEN,
{
    random_bytes(KEY_LEN)
}

impl Clone for SharedSecret {
    fn clone(&self) -> (copy: Self)
        ensures
            copy@ == self@,
    {
        proof {
            use_type_invariant(self);
        }
        let bytes = self.bytes.clone();
        assert(bytes@ =~= self.bytes@);
        SharedSecret { bytes }
    }
}

impl SharedSecret {
    #[verifier::type_invariant]
    spec fn well_formed(self) -> bool {
        self.bytes@.len() == KEY_LEN
    }

    /// Accepts `bytes` as a secret if, and only if, there are [`KEY_LEN`] of
    /// them.
    pub fn from_bytes(bytes: Vec<u8>) -> (secret: Option<SharedSecret>)
        ensures
            bytes@.len() == KEY_LEN ==> (secret matches Some(s) && s@ == bytes@),
            bytes@.len() != KEY_LEN ==> secret is None,
    {
        if bytes.len() == KEY_LEN {
            Some(SharedSecret { bytes })
        } else {
            None
        }
    }

    /// A fresh random secret.
    pub fn generate() -> (secret: SharedSecret)
        ensures
            secret@.len() == KEY_LEN,
    {
        SharedSecret { bytes: generate_encryption_key() }
    }

    /// The bytes of the secret.
    pub fn as_bytes(&self) -> (bytes: &[u8])
        ensures
            bytes@ == self@,
            bytes@.len() == KEY_LEN,
    {
        proof {
            use_type_invariant(self);
        }
        self.bytes.as_slice()
    }
}

/// What sealing `plaintext` under `key` and `nonce` yields: ciphertext
/// followed by the tag, or nothing where the cipher refuses the input.
pub uninterp spec fn sealed(key: Seq<u8>, nonce: Seq<u8>, plaintext: Seq<u8>) -> Option<Seq<u8>>;

/// What opening `body` under `key` and `nonce` yields: the plaintext, or
/// nothing where the tag does not match.
pub uninterp spec fn opened(key: Seq<u8>, nonce: Seq<u8>, body: Seq<u8>) -> Option<Seq<u8>>;

/// The view of an optional byte vector.
pub open spec fn bytes_of(value: Option<Vec<u8>>) -> Option<Seq<u8>> {
    match value {
        Some(bytes) => Some(bytes@),
        None => None,
    }
}

/// The error of the `chacha20poly1305` crate. It says nothing but that the
/// operation failed.
#[verifier::external_type_specification]
#[verifier::external_body]
pub struct ExCipherError(chacha20poly1305::aead::Error);

/// What the cipher gave, without its error.
pub open spec fn cipher_output(result: Result<Vec<u8>, chacha20poly1305::aead::Error>) -> Option<Seq<u8>> {
    match result {
        Ok(bytes) => Some(bytes@),
        Err(_) => None,
    }
}

/// `ChaCha20Poly1305::encrypt` of the `chacha20poly1305` crate, with no
/// associated data, on a cipher made by `ChaCha20Poly1305::new`. Believed of
/// it: the result depends on the three inputs alone; the cipher refuses
/// exactly the inputs of `u32::MAX` blocks of 64 bytes or more; the output is
/// as long as the input and the tag together; and opening the output under
/// the same key and nonce gives the input back. Key and nonce must have
/// their full lengths: the crate panics on others.
#[verifier::external_body]
fn aead_seal(key: &[u8], nonce: &[u8], plaintext: &[u8]) -> (body: Result<
    Vec<u8>,
    chacha20poly1305::aead::Error,
>)
    requires
        key@.len() == KEY_LEN,
        nonce@.len() == NONCE_LEN,
    ensures
        cipher_output(body) == sealed(key@, nonce@, plaintext@),
        body is Ok <==> plaintext@.len() / 64 < u32::MAX,
        body matches Ok(b) ==> b@.len() == plaintext@.len() + TAG_LEN && opened(key@, nonce@, b@)
            == Some(plaintext@),
{
    let cipher = chacha20poly1305::ChaCha20Poly1305::new(chacha20poly1305::Key::from_slice(key));
    cipher.encrypt(chacha20poly1305::Nonce::from_slice(nonce), plaintext)
}

/// `ChaCha20Poly1305::decrypt` of the `chacha20poly1305` crate, with no
/// associated data, on a cipher made by `ChaCha20Poly1305::new`. Believed of
/// it: the result depends on the three inputs alone. Key and nonce must have
/// their full lengths: the crate panics on others.
#[verifier::external_body]
fn aead_open(key: &[u8], nonce: &[u8], body: &[u8]) -> (plaintext: Result<
    Vec<u8>,
    chacha20poly1305::aead::Error,
>)
    requires
        key@.len() == KEY_LEN,
        nonce@.len() == NONCE_LEN,
    ensures
        cipher_output(plaintext) == opened(key@, nonce@, body@),
{
    let cipher = chacha20poly1305::ChaCha20Poly1305::new(chacha20poly1305::Key::from_slice(key));
    cipher.decrypt(chacha20poly1305::Nonce::from_slice(nonce), body)
}

/// Drops the cipher's error: all it says is that there is no output.
fn without_error(result: Result<Vec<u8>, chacha20poly1305::aead::Error>) -> (output: Option<Vec<u8>>)
    ensures
        bytes_of(output) == cipher_output(result),
{
    match result {
        Ok(bytes) => Some(bytes),
        Err(_) => None,
    }
}

/// A sealed payload on the wire: the nonce, then ciphertext and tag.
pub open spec fn framed(nonce: Seq<u8>, body: Option<Seq<u8>>) -> Result<Seq<u8>, FlingError> {
    match body {
        Some(b) => Ok(nonce + b),
        None => Err(FlingError::TransferIOError),
    }
}

/// What the receiver makes of the outcome of opening a payload.
pub open spec fn authenticated(plaintext: Option<Seq<u8>>) -> Result<Seq<u8>, FlingError> {
    match plaintext {
        Some(p) => Ok(p),
        None => Err(FlingError::AuthenticationFailed),
    }
}

/// What [`decrypt`] returns for `data` under `key`.
pub open spec fn decrypted(key: Seq<u8>, data: Seq<u8>) -> Result<Seq<u8>, FlingError> {
    if data.len() < NONCE_LEN {
        Err(FlingError::AuthenticationFailed)
    } else {
        authenticated(
            opened(key, data.subrange(0, NONCE_LEN as int), data.subrange(NONCE_LEN as int, data.len() as int)),
        )
    }
}

/// The view of a result that carries bytes.
pub open spec fn outcome_of(value: Result<Vec<u8>, FlingError>) -> Result<Seq<u8>, FlingError> {
    match value {
        Ok(bytes) => Ok(bytes@),
        Err(e) => Err(e),
    }
}

/// Puts the nonce in front of a sealed body; a payload the cipher refused
/// is a transfer failure.
pub fn frame_sealed(nonce: &[u8], body: Option<Vec<u8>>) -> (wire: Result<Vec<u8>, FlingError>)
    ensures
        outcome_of(wire) == framed(nonce@, bytes_of(body)),
{
    match body {
        Some(mut b) => {
            let mut wire = slice_to_vec(nonce);
            wire.append(&mut b);
            Ok(wire)
        },
        None => Err(FlingError::TransferIOError),
    }
}

/// Splits a sealed payload into nonce and body. Input shorter than a nonce
/// has no such split.
pub fn split_frame(data: &[u8]) -> (parts: Option<(&[u8], &[u8])>)
    ensures
        data@.len() < NONCE_LEN ==> parts is None,
        data@.len() >= NONCE_LEN ==> (parts matches Some((nonce, body)) && nonce@ == data@.subrange(
            0,
            NONCE_LEN as int,
        ) && body@ == data@.subrange(NONCE_LEN as int, data@.len() as int)),
{
    if data.len() < NONCE_LEN {
        None
    } else {
        Some((slice_subrange(data, 0, NONCE_LEN), slice_subrange(data, NONCE_LEN, data.len())))
    }
}

/// Maps the outcome of opening a payload to the receiver's result: a failed
/// authentication is reported as such and no plaintext is released.
pub fn check_opened(plaintext: Option<Vec<u8>>) -> (result: Result<Vec<u8>, FlingError>)
    ensures
        outcome_of(result) == authenticated(bytes_of(plaintext)),
{
    match plaintext {
        Some(p) => Ok(p),
        None => Err(FlingError::AuthenticationFailed),
    }
}

/// Seals `plaintext` under the session secret with a fresh random nonce and
/// returns nonce, ciphertext and tag as one payload.
///
/// Whatever nonce was drawn, [`decrypt`] under the same secret gives the
/// plaintext back.
pub fn encrypt(key: &SharedSecret, plaintext: &[u8]) -> (wire: Result<Vec<u8>, FlingError>)
    ensures
        wire is Ok <==> plaintext@.len() / 64 < u32::MAX,
        wire matches Err(e) ==> e == FlingError::TransferIOError,
        wire matches Ok(w) ==> {
            &&& w@.len() == NONCE_LEN + plaintext@.len() + TAG_LEN
            &&& sealed(key@, w@.subrange(0, NONCE_LEN as int), plaintext@) == Some(
                w@.subrange(NONCE_LEN as int, w@.len() as int),
            )
            &&& decrypted(key@, w@) == Ok::<Seq<u8>, FlingError>(plaintext@)
        },
{
    let nonce = random_bytes(NONCE_LEN);
    let body = without_error(aead_seal(key.as_bytes(), nonce.as_slice(), plaintext));
    let wire = frame_sealed(nonce.as_slice(), body);
    proof {
        if wire is Ok {
            let w = wire->Ok_0;
            let b = body->0;
            assert(w@.subrange(0, NONCE_LEN as int) =~= nonce@);
            assert(w@.subrange(NONCE_LEN as int, w@.len() as int) =~= b@);
        }
    }
    wire
}

/// Opens a payload made by [`encrypt`]. Input shorter than a nonce is
/// rejected before the cipher sees it; any other input is released only if
/// its tag authenticates under `key`.
pub fn decrypt(key: &SharedSecret, data: &[u8]) -> (plaintext: Result<Vec<u8>, FlingError>)
    ensures
        outcome_of(plaintext) == decrypted(key@, data@),
        data@.len() < NONCE_LEN ==> plaintext == Err::<Vec<u8>, FlingError>(
            FlingError::AuthenticationFailed,
        ),
        plaintext matches Err(e) ==> e == FlingError::AuthenticationFailed,
{
    match split_frame(data) {
        None => Err(FlingError::AuthenticationFailed),
        Some((nonce, body)) => check_opened(without_error(aead_open(key.as_bytes(), nonce, body))),
    }
}

} // verus!
