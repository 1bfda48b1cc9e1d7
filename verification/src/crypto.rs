//! Public-key identities, content hashes and their textual form.
//!
//! The signature scheme and the hash function themselves belong to the host;
//! this module only carries their fixed-size values and renders them as
//! lower-case hexadecimal text, which is the form under which owners are filed.

use vstd::prelude::*;
use vstd::std_specs::cmp::PartialEqSpecImpl;

verus! {

/// Number of bytes in a public key.
pub const PUBLIC_KEY_LENGTH: usize = 32;

/// Number of bytes in a content hash.
pub const HASH_SIZE: usize = 32;

/// The sixteen lower-case hexadecimal digits, in order of value.
pub open spec fn hex_digits() -> Seq<char> {
    seq!['0', '1', '2', '3', '4', '5', '6', '7', '8', '9', 'a', 'b', 'c', 'd', 'e', 'f']
}

/// The hexadecimal text of a byte string: two digits per byte, the high half
/// of each byte first.
pub open spec fn hex_string(bytes: Seq<u8>) -> Seq<char> {
    Seq::new(
        2 * bytes.len(),
        |i: int|
            if i % 2 == 0 {
                hex_digits()[bytes[i / 2] as int / 16]
            } else {
                hex_digits()[bytes[i / 2] as int % 16]
            },
    )
}

/// Distinct byte strings have distinct hexadecimal texts.
pub proof fn lemma_hex_string_injective(a: Seq<u8>, b: Seq<u8>)
    requires
        hex_string(a) == hex_string(b),
    ensures
        a == b,
{
    assert(hex_string(a).len() == 2 * a.len());
    assert(hex_string(b).len() == 2 * b.len());
    assert(a.len() == b.len());
    assert forall|k: int| 0 <= k < a.len() implies a[k] == b[k] by {
        let x = a[k] as int;
        let y = b[k] as int;
        assert(hex_string(a)[2 * k] == hex_digits()[x / 16]);
        assert(hex_string(b)[2 * k] == hex_digits()[y / 16]);
        assert(hex_string(a)[2 * k + 1] == hex_digits()[x % 16]);
        assert(hex_string(b)[2 * k + 1] == hex_digits()[y % 16]);
        lemma_hex_digits_distinct(x / 16, y / 16);
        lemma_hex_digits_distinct(x % 16, y % 16);
    }
    assert(a =~= b);
}

/// No two positions of the digit table hold the same character.
proof fn lemma_hex_digits_distinct(i: int, j: int)
    requires
        0 <= i < 16,
        0 <= j < 16,
        hex_digits()[i] == hex_digits()[j],
    ensures
        i == j,
{
}

/// Renders bytes through `hex::encode`, which writes for every byte its high
/// and then its low half as one lower-case hexadecimal digit each.
#[verifier::external_body]
fn encode_hex(data: &[u8]) -> (text: String)
    ensures
        text@ == hex_string(data@),
{
    hex::encode(data)
}

/// An Ed25519 public key: the identity of an owner or a factory.
#[derive(Clone, Copy, Debug)]
pub struct PublicKey {
    bytes: [u8; PUBLIC_KEY_LENGTH],
}

impl View for PublicKey {
    type V = Seq<u8>;

    closed spec fn view(&self) -> Seq<u8> {
        self.bytes@
    }
}

impl PublicKey {
    /// A key is always exactly `PUBLIC_KEY_LENGTH` bytes long.
    pub proof fn lemma_len(&self)
        ensures
            self@.len() == PUBLIC_KEY_LENGTH,
    {
    }

    /// Two keys with the same bytes are the same key.
    pub proof fn lemma_ext_equal(&self, other: &PublicKey)
        requires
            self@ == other@,
        ensures
            *self == *other,
    {
        assert(self.bytes =~= other.bytes);
    }

    /// The key made of the given bytes.
    pub fn new(bytes: [u8; PUBLIC_KEY_LENGTH]) -> (key: Self)
        ensures
            key@ == bytes@,
    {
        PublicKey { bytes }
    }

    /// The key whose bytes are all zero.
    pub fn zero() -> (key: Self)
        ensures
            key@ == Seq::new(PUBLIC_KEY_LENGTH as nat, |i: int| 0u8),
    {
        let key = PublicKey { bytes: [0u8; PUBLIC_KEY_LENGTH] };
        assert(key@ =~= Seq::new(PUBLIC_KEY_LENGTH as nat, |i: int| 0u8));
        key
    }

    /// The key held in `bytes`, if `bytes` has the length of a key.
    pub fn from_slice(bytes: &[u8]) -> (key: Option<Self>)
        ensures
            key is Some <==> bytes@.len() == PUBLIC_KEY_LENGTH,
            key matches Some(k) ==> k@ == bytes@,
    {
        if bytes.len() != PUBLIC_KEY_LENGTH {
            return None;
        }
        let mut buffer = [0u8; PUBLIC_KEY_LENGTH];
        let mut i: usize = 0;
        while i < PUBLIC_KEY_LENGTH
            invariant
                i <= PUBLIC_KEY_LENGTH,
                bytes@.len() == PUBLIC_KEY_LENGTH,
                forall|k: int| 0 <= k < i ==> buffer@[k] == bytes@[k],
            decreases PUBLIC_KEY_LENGTH - i,
        {
            buffer[i] = bytes[i];
            i += 1;
        }
        assert(buffer@ =~= bytes@);
        Some(PublicKey { bytes: buffer })
    }

    /// The bytes of the key.
    pub fn as_bytes(&self) -> (bytes: &[u8; PUBLIC_KEY_LENGTH])
        ensures
            bytes@ == self@,
    {
        &self.bytes
    }

    /// The key as lower-case hexadecimal text.
    pub fn to_hex(&self) -> (text: String)
        ensures
            text@ == hex_string(self@),
    {
        encode_hex(self.bytes.as_slice())
    }
}

impl PartialEq for PublicKey {
    fn eq(&self, other: &PublicKey) -> (equal: bool) {
        let mut i: usize = 0;
        while i < PUBLIC_KEY_LENGTH
            invariant
                i <= PUBLIC_KEY_LENGTH,
                forall|k: int| 0 <= k < i ==> self.bytes@[k] == other.bytes@[k],
            decreases PUBLIC_KEY_LENGTH - i,
        {
            if self.bytes[i] != other.bytes[i] {
                return false;
            }
            i += 1;
        }
        assert(self.bytes@ =~= other.bytes@);
        true
    }
}

impl Eq for PublicKey {

}

impl PartialEqSpecImpl for PublicKey {
    open spec fn obeys_eq_spec() -> bool {
        true
    }

    open spec fn eq_spec(&self, other: &PublicKey) -> bool {
        self@ == other@
    }
}

/// A SHA-256 digest: the identifier that the host derives from the content of
/// a transaction.
#[derive(Clone, Copy, Debug)]
pub struct Hash {
    bytes: [u8; HASH_SIZE],
}

impl View for Hash {
    type V = Seq<u8>;

    closed spec fn view(&self) -> Seq<u8> {
        self.bytes@
    }
}

impl Hash {
    /// A digest is always exactly `HASH_SIZE` bytes long.
    pub proof fn lemma_len(&self)
        ensures
            self@.len() == HASH_SIZE,
    {
    }

    /// The digest made of the given bytes.
    pub fn new(bytes: [u8; HASH_SIZE]) -> (hash: Self)
        ensures
            hash@ == bytes@,
    {
        Hash { bytes }
    }

    /// The digest whose bytes are all zero.
    pub fn zero() -> (hash: Self)
        ensures
            hash@ == Seq::new(HASH_SIZE as nat, |i: int| 0u8),
    {
        let hash = Hash { bytes: [0u8; HASH_SIZE] };
        assert(hash@ =~= Seq::new(HASH_SIZE as nat, |i: int| 0u8));
        hash
    }

    /// The digest held in `bytes`, if `bytes` has the length of a digest.
    pub fn from_slice(bytes: &[u8]) -> (hash: Option<Self>)
        ensures
            hash is Some <==> bytes@.len() == HASH_SIZE,
            hash matches Some(h) ==> h@ == bytes@,
    {
        if bytes.len() != HASH_SIZE {
            return None;
        }
        let mut buffer = [0u8; HASH_SIZE];
        let mut i: usize = 0;
        while i < HASH_SIZE
            invariant
                i <= HASH_SIZE,
                bytes@.len() == HASH_SIZE,
                forall|k: int| 0 <= k < i ==> buffer@[k] == bytes@[k],
            decreases HASH_SIZE - i,
        {
            buffer[i] = bytes[i];
            i += 1;
        }
        assert(buffer@ =~= bytes@);
        Some(Hash { bytes: buffer })
    }

    /// The bytes of the digest.
    pub fn as_bytes(&self) -> (bytes: &[u8; HASH_SIZE])
        ensures
            bytes@ == self@,
    {
        &self.bytes
    }

    /// The digest as lower-case hexadecimal text.
    pub fn to_hex(&self) -> (text: String)
        ensures
            text@ == hex_string(self@),
    {
        encode_hex(self.bytes.as_slice())
    }
}

impl PartialEq for Hash {
    fn eq(&self, other: &Hash) -> (equal: bool) {
        let mut i: usize = 0;
        while i < HASH_SIZE
            invariant
                i <= HASH_SIZE,
                forall|k: int| 0 <= k < i ==> self.bytes@[k] == other.bytes@[k],
            decreases HASH_SIZE - i,
        {
            if self.bytes[i] != other.bytes[i] {
                return false;
            }
            i += 1;
        }
        assert(self.bytes@ =~= other.bytes@);
        true
    }
}

impl Eq for Hash {

}

impl PartialEqSpecImpl for Hash {
    open spec fn obeys_eq_spec() -> bool {
        true
    }

    open spec fn eq_spec(&self, other: &Hash) -> bool {
        self@ == other@
    }
}

/// What the host found when it checked the signature of a transaction
/// against a public key: the key it checked against, and whether the
/// signature was made with the secret half of that key.
#[derive(Clone, Copy, Debug)]
pub struct SignatureCheck {
    pub public_key: PublicKey,
    pub valid: bool,
}

} // verus!
