//! WireGuard keys: 32 bytes each, with their textual forms.

use vstd::prelude::*;

verus! {

/// A WireGuard public key.
#[derive(Clone, Copy, Debug, PartialEq, Eq, Hash)]
pub struct PublicKey {
    pub bytes: [u8; 32],
}

/// A WireGuard private key.
#[derive(Clone, Copy, PartialEq, Eq)]
pub struct PrivateKey {
    pub bytes: [u8; 32],
}

impl View for PublicKey {
    type V = Seq<u8>;

    open spec fn view(&self) -> Seq<u8> {
        self.bytes@
    }
}

impl View for PrivateKey {
    type V = Seq<u8>;

    open spec fn view(&self) -> Seq<u8> {
        self.bytes@
    }
}

/// Whether two arrays of 32 bytes hold the same bytes.
fn same_bytes(a: &[u8; 32], b: &[u8; 32]) -> (r: bool)
    ensures
        r == (a@ == b@),
{
    let mut i: usize = 0;
    while i < 32
        invariant
            i <= 32,
            forall|j: int| 0 <= j < i ==> a@[j] == b@[j],
        decreases 32 - i,
    {
        if a[i] != b[i] {
            return false;
        }
        i = i + 1;
    }
    assert(a@ =~= b@);
    true
}

impl PublicKey {
    /// A key from its 32 bytes.
    pub fn new(bytes: [u8; 32]) -> (r: PublicKey)
        ensures
            r@ == bytes@,
            r.bytes == bytes,
    {
        PublicKey { bytes }
    }

    /// Whether two keys hold the same bytes.
    pub fn same(&self, other: &PublicKey) -> (r: bool)
        ensures
            r == (self@ == other@),
    {
        same_bytes(&self.bytes, &other.bytes)
    }

    /// The key in base64 with the URL-safe alphabet, as it stands in registry
    /// keys and session names.
    pub fn to_base64_urlsafe(&self) -> (r: String)
        ensures
            r@ == public_key_urlsafe_text(self@),
    {
        public_key_urlsafe(self)
    }

    /// The key in standard base64, as it stands in interface configuration.
    pub fn to_base64(&self) -> (r: String)
        ensures
            r@ == public_key_text(self@),
    {
        public_key_base64(self)
    }

    /// Reads a key from standard base64. `None` where the text is no base64
    /// or does not hold 32 bytes.
    pub fn from_base64(text: &str) -> (r: Option<PublicKey>)
        ensures
            match r {
                Some(k) => public_key_from_base64(text@) == Some(k@),
                None => public_key_from_base64(text@) is None,
            },
    {
        match parse_public_key_base64(text) {
            Ok(k) => Some(k),
            Err(_) => None,
        }
    }
}

impl PrivateKey {
    /// A key from its 32 bytes.
    pub fn new(bytes: [u8; 32]) -> (r: PrivateKey)
        ensures
            r@ == bytes@,
            r.bytes == bytes,
    {
        PrivateKey { bytes }
    }

    /// A fresh key from the system's source of randomness, clamped as the
    /// key agreement asks of a private key.
    pub fn generate() -> (r: PrivateKey)
        ensures
            is_clamped(r@),
    {
        generate_private_key()
    }

    /// The public key that belongs to this private key.
    pub fn pubkey(&self) -> (r: PublicKey)
        ensures
            r@ == derived_public_key(self@),
    {
        derive_public_key(self)
    }

    /// The key in standard base64.
    pub fn to_base64(&self) -> (r: String)
        ensures
            r@ == private_key_text(self@),
    {
        private_key_base64(self)
    }

    /// Reads a key from text: hex, standard base64 or URL-safe base64, told
    /// apart by length. `None` where the text is none of these.
    pub fn parse(text: &str) -> (r: Option<PrivateKey>)
        ensures
            match r {
                Some(k) => private_key_from_text(text@) == Some(k@),
                None => private_key_from_text(text@) is None,
            },
    {
        match parse_private_key(text) {
            Ok(k) => Some(k),
            Err(_) => None,
        }
    }
}

/// Whether the bytes of a private key are clamped as x25519 asks: the three
/// lowest bits of the first byte are clear, and of the last byte the highest
/// bit is clear and the one below it is set.
pub open spec fn is_clamped(key: Seq<u8>) -> bool {
    key.len() == 32 && key[0] % 8 == 0 && 64 <= key[31] < 128
}

/// The public key that `wireguard_keys::Privkey::pubkey` derives from the
/// bytes of a private key.
pub uninterp spec fn derived_public_key(private: Seq<u8>) -> Seq<u8>;

/// What `wireguard_keys::Pubkey::to_base64` writes for the bytes of a key.
pub uninterp spec fn public_key_text(key: Seq<u8>) -> Seq<char>;

/// What `wireguard_keys::Pubkey::to_base64_urlsafe` writes for the bytes of a
/// key.
pub uninterp spec fn public_key_urlsafe_text(key: Seq<u8>) -> Seq<char>;

/// What `wireguard_keys::Privkey::to_base64` writes for the bytes of a key.
pub uninterp spec fn private_key_text(key: Seq<u8>) -> Seq<char>;

/// The bytes that `wireguard_keys::Pubkey::from_base64` reads from a text,
/// or `None` where it refuses the text.
pub uninterp spec fn public_key_from_base64(text: Seq<char>) -> Option<Seq<u8>>;

/// The bytes that `wireguard_keys::Privkey::parse` reads from a text, or
/// `None` where it refuses the text.
pub uninterp spec fn private_key_from_text(text: Seq<char>) -> Option<Seq<u8>>;

#[verifier::external_type_specification]
#[verifier::external_body]
pub struct ExKeyParseError(wireguard_keys::ParseError);

/// `wireguard_keys::Privkey::generate`: 32 bytes drawn from the operating
/// system's random number generator and clamped by x25519's `StaticSecret`.
/// Of the bytes nothing is claimed but the clamping.
#[verifier::external_body]
fn generate_private_key() -> (r: PrivateKey)
    ensures
        is_clamped(r@),
{
    PrivateKey { bytes: *wireguard_keys::Privkey::generate() }
}

/// `wireguard_keys::Privkey::pubkey`: the x25519 public key of a private
/// key, which depends on the private key's bytes alone.
#[verifier::external_body]
fn derive_public_key(key: &PrivateKey) -> (r: PublicKey)
    ensures
        r@ == derived_public_key(key@),
{
    PublicKey { bytes: *wireguard_keys::Privkey::new(key.bytes).pubkey() }
}

/// `wireguard_keys::Pubkey::to_base64`: the key's bytes in base64 with the
/// standard alphabet.
#[verifier::external_body]
fn public_key_base64(key: &PublicKey) -> (r: String)
    ensures
        r@ == public_key_text(key@),
{
    wireguard_keys::Pubkey::new(key.bytes).to_base64()
}

/// `wireguard_keys::Pubkey::to_base64_urlsafe`: the key's bytes in base64
/// with the URL-safe alphabet.
#[verifier::external_body]
fn public_key_urlsafe(key: &PublicKey) -> (r: String)
    ensures
        r@ == public_key_urlsafe_text(key@),
{
    wireguard_keys::Pubkey::new(key.bytes).to_base64_urlsafe()
}

/// `wireguard_keys::Privkey::to_base64`: the key's bytes in base64 with the
/// standard alphabet.
#[verifier::external_body]
fn private_key_base64(key: &PrivateKey) -> (r: String)
    ensures
        r@ == private_key_text(key@),
{
    wireguard_keys::Privkey::new(key.bytes).to_base64()
}

/// `wireguard_keys::Pubkey::from_base64`: decodes standard base64 and takes
/// the result as a key if it is 32 bytes long.
#[verifier::external_body]
fn parse_public_key_base64(text: &str) -> (r: Result<PublicKey, wireguard_keys::ParseError>)
    ensures
        match r {
            Ok(k) => public_key_from_base64(text@) == Some(k@),
            Err(_) => public_key_from_base64(text@) is None,
        },
{
    match wireguard_keys::Pubkey::from_base64(text) {
        Ok(k) => Ok(PublicKey { bytes: *k }),
        Err(e) => Err(e),
    }
}

/// `wireguard_keys::Privkey::parse`: reads 64 characters as hex and 44 as
/// base64, standard or URL-safe, and refuses every other length.
#[verifier::external_body]
fn parse_private_key(text: &str) -> (r: Result<PrivateKey, wireguard_keys::ParseError>)
    ensures
        match r {
            Ok(k) => private_key_from_text(text@) == Some(k@),
            Err(_) => private_key_from_text(text@) is None,
        },
{
    match wireguard_keys::Privkey::parse(text) {
        Ok(k) => Ok(PrivateKey { bytes: *k }),
        Err(e) => Err(e),
    }
}

} // verus!
