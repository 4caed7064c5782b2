//! Storage addresses: where a named entry of a named module lives in the
//! ledger's key-value state.
//!
//! An address is the hash of the module name followed by the hash of the
//! entry name, sixteen bytes each; the address of one item of a keyed entry
//! continues with the item's encoded key, hashed by one of the transparent
//! hashers, which all end in the key itself.

use vstd::prelude::*;
use vstd::string::StringSliceAdditionalSpecFns;

verus! {

/// The 128-bit xx-hash of `data`, as `sp_crypto_hashing::twox_128` computes it.
pub uninterp spec fn twox_128_digest(data: Seq<u8>) -> [u8; 16];

/// The 64-bit xx-hash of `data`, as `sp_crypto_hashing::twox_64` computes
/// it: the digest that `Twox64Concat` puts before the key.
pub uninterp spec fn twox_64_digest(data: Seq<u8>) -> [u8; 8];

/// The 128-bit blake2 hash of `data`, as `sp_crypto_hashing::blake2_128`
/// computes it: the digest that `Blake2_128Concat` puts before the key.
pub uninterp spec fn blake2_128_digest(data: Seq<u8>) -> [u8; 16];

/// Calls `sp_crypto_hashing::twox_128`. The digest is a function of the bytes
/// alone; nothing is proved of its value beyond its name and its width.
#[verifier::external_body]
fn twox_128(data: &[u8]) -> (digest: [u8; 16])
    ensures
        digest == twox_128_digest(data@),
{
    sp_crypto_hashing::twox_128(data)
}

/// Calls `frame_support::storage::storage_prefix`, which is documented as the
/// concatenation of the 128-bit xx-hashes of the two names.
#[verifier::external_body]
fn pallet_storage_prefix(pallet_name: &[u8], storage_name: &[u8]) -> (prefix: [u8; 32])
    ensures
        prefix@ == prefix_of(pallet_name@, storage_name@),
{
    frame_support::storage::storage_prefix(pallet_name, storage_name)
}

/// Calls `frame_support::Twox64Concat::hash`, documented as the 64-bit xx-hash
/// of the key followed by the key.
#[verifier::external_body]
fn twox_64_concat(key: &[u8]) -> (hashed: Vec<u8>)
    ensures
        hashed@ == twox_64_digest(key@)@ + key@,
{
    <frame_support::Twox64Concat as frame_support::StorageHasher>::hash(key)
}

/// Calls `frame_support::Blake2_128Concat::hash`, documented as the 128-bit
/// blake2 hash of the key followed by the key.
#[verifier::external_body]
fn blake2_128_concat(key: &[u8]) -> (hashed: Vec<u8>)
    ensures
        hashed@ == blake2_128_digest(key@)@ + key@,
{
    <frame_support::Blake2_128Concat as frame_support::StorageHasher>::hash(key)
}

/// Calls `frame_support::Identity::hash`, which stores the key as it is.
#[verifier::external_body]
fn identity(key: &[u8]) -> (hashed: Vec<u8>)
    ensures
        hashed@ == key@,
{
    <frame_support::Identity as frame_support::StorageHasher>::hash(key)
}

/// Calls `parity_scale_codec::Encode::encode` on a `u32`, whose encoding is
/// its four bytes, least significant first.
#[verifier::external_body]
pub(crate) fn encode_index(value: u32) -> (bytes: Vec<u8>)
    ensures
        bytes@ == le_bytes(value),
{
    parity_scale_codec::Encode::encode(&value)
}

/// The four bytes of `value`, least significant first.
pub open spec fn le_bytes(value: u32) -> Seq<u8> {
    seq![
        (value % 256) as u8,
        (value / 256 % 256) as u8,
        (value / 65536 % 256) as u8,
        (value / 16777216) as u8,
    ]
}

/// The address prefix shared by every item of entry `s` of module `m`.
pub open spec fn prefix_of(m: Seq<u8>, s: Seq<u8>) -> Seq<u8> {
    twox_128_digest(m)@ + twox_128_digest(s)@
}

/// The address of the item of entry `s` of module `m` that `encoded_key`
/// names, under `hasher`.
pub open spec fn keyed_address_of(
    m: Seq<u8>,
    s: Seq<u8>,
    encoded_key: Seq<u8>,
    hasher: KeyHasher,
) -> Seq<u8> {
    prefix_of(m, s) + hasher.hashed(encoded_key)
}

/// How the key of one item of a keyed entry enters its address. Each of
/// these hashers is transparent: its output ends in the key itself.
#[derive(Clone, Copy, Debug, PartialEq, Eq, Structural)]
pub enum KeyHasher {
    /// Eight bytes of xx-hash, then the key.
    Twox64Concat,
    /// Sixteen bytes of blake2, then the key.
    Blake2_128Concat,
    /// The key alone.
    Identity,
}

impl KeyHasher {
    /// How many bytes this hasher puts before the key.
    pub open spec fn digest_width(self) -> nat {
        match self {
            KeyHasher::Twox64Concat => 8,
            KeyHasher::Blake2_128Concat => 16,
            KeyHasher::Identity => 0,
        }
    }

    /// What this hasher makes of `key`.
    pub open spec fn hashed(self, key: Seq<u8>) -> Seq<u8> {
        match self {
            KeyHasher::Twox64Concat => twox_64_digest(key)@ + key,
            KeyHasher::Blake2_128Concat => blake2_128_digest(key)@ + key,
            KeyHasher::Identity => key,
        }
    }

    /// Hashes an encoded key for use at the end of an address.
    pub fn hash(self, key: &[u8]) -> (out: Vec<u8>)
        ensures
            out@ == self.hashed(key@),
            out@.len() == self.digest_width() + key@.len(),
    {
        match self {
            KeyHasher::Twox64Concat => twox_64_concat(key),
            KeyHasher::Blake2_128Concat => blake2_128_concat(key),
            KeyHasher::Identity => identity(key),
        }
    }
}

/// A storage address, as the ledger's state queries take it.
#[derive(Debug)]
pub struct StorageKey(pub Vec<u8>);

impl View for StorageKey {
    type V = Seq<u8>;

    open spec fn view(&self) -> Seq<u8> {
        self.0@
    }
}

/// Appends the bytes of `part` to `key`.
fn append_bytes(key: &mut Vec<u8>, part: &[u8])
    ensures
        final(key)@ == old(key)@ + part@,
{
    let mut i: usize = 0;
    while i < part.len()
        invariant
            i <= part@.len(),
            key@ == old(key)@ + part@.subrange(0, i as int),
        decreases part@.len() - i,
    {
        key.push(part[i]);
        i += 1;
    }
    assert(part@.subrange(0, i as int) == part@);
}

/// The prefix of a storage entry: the hash of the module name followed by the
/// hash of the entry name, sixteen bytes each.
pub fn storage_prefix(m: &[u8], s: &[u8]) -> (key: Vec<u8>)
    ensures
        key@ == prefix_of(m@, s@),
        key@.len() == 32,
{
    let k1 = twox_128(m);
    let k2 = twox_128(s);
    let mut key: Vec<u8> = Vec::with_capacity(k1.len() + k2.len());
    append_bytes(&mut key, k1.as_slice());
    append_bytes(&mut key, k2.as_slice());
    key
}

/// The address of a plain entry `s` of module `m`.
pub fn storage_value(m: &[u8], s: &[u8]) -> (key: StorageKey)
    ensures
        key@ == prefix_of(m@, s@),
        key@.len() == 32,
{
    StorageKey(storage_prefix(m, s))
}

/// The address of the item of entry `s` of module `m` that `encoded_key`
/// names, under `hasher`.
pub fn storage_value_by_key(m: &[u8], s: &[u8], encoded_key: &[u8], hasher: KeyHasher) -> (key:
    StorageKey)
    ensures
        key@ == keyed_address_of(m@, s@, encoded_key@, hasher),
        key@.len() == 32 + hasher.digest_width() + encoded_key@.len(),
{
    let mut key = storage_prefix(m, s);
    let k2 = hasher.hash(encoded_key);
    append_bytes(&mut key, k2.as_slice());
    StorageKey(key)
}

/// The address of the log of the events that a block deposited: entry
/// `Events` of module `System`.
pub fn system_events_key() -> (key: StorageKey)
    ensures
        key@ == prefix_of("System".spec_bytes(), "Events".spec_bytes()),
        key@.len() == 32,
{
    let prefix = pallet_storage_prefix("System".as_bytes(), "Events".as_bytes());
    let mut key: Vec<u8> = Vec::with_capacity(prefix.len());
    append_bytes(&mut key, prefix.as_slice());
    StorageKey(key)
}

/// An address starts with the sixteen-byte hash of the module name and goes
/// on with the sixteen-byte hash of the entry name, so entries of one module
/// share their first half.
pub proof fn lemma_prefix_halves(m: Seq<u8>, s: Seq<u8>)
    ensures
        prefix_of(m, s).len() == 32,
        prefix_of(m, s).subrange(0, 16) == twox_128_digest(m)@,
        prefix_of(m, s).subrange(16, 32) == twox_128_digest(s)@,
{
}

/// The address of a keyed item ends in the encoded key, whichever hasher
/// is used.
pub proof fn lemma_keyed_address_ends_in_key(
    m: Seq<u8>,
    s: Seq<u8>,
    encoded_key: Seq<u8>,
    hasher: KeyHasher,
)
    ensures
        keyed_address_of(m, s, encoded_key, hasher).len() == 32 + hasher.digest_width()
            + encoded_key.len(),
        keyed_address_of(m, s, encoded_key, hasher).skip(32 + hasher.digest_width() as int)
            == encoded_key,
{
}

/// Two items of one entry that lie at the same address have the same key.
pub proof fn lemma_keyed_address_injective(
    m: Seq<u8>,
    s: Seq<u8>,
    key_a: Seq<u8>,
    key_b: Seq<u8>,
    hasher: KeyHasher,
)
    requires
        keyed_address_of(m, s, key_a, hasher) == keyed_address_of(m, s, key_b, hasher),
    ensures
        key_a == key_b,
{
    lemma_keyed_address_ends_in_key(m, s, key_a, hasher);
    lemma_keyed_address_ends_in_key(m, s, key_b, hasher);
}

/// The number that four bytes encode, least significant first.
pub open spec fn from_le_bytes(bytes: Seq<u8>) -> int
    recommends
        bytes.len() == 4,
{
    bytes[0] + 256 * bytes[1] + 65536 * bytes[2] + 16777216 * bytes[3]
}

/// Decoding the four bytes of a number gives the number back, so different
/// numbers have different encodings.
pub proof fn lemma_le_bytes_round_trip(value: u32)
    ensures
        le_bytes(value).len() == 4,
        from_le_bytes(le_bytes(value)) == value,
{
    let v = value as int;
    let q1 = v / 256;
    let q2 = v / 65536;
    let q3 = v / 16777216;
    assert(q2 == q1 / 256 && q3 == q2 / 256 && q3 < 256) by (nonlinear_arith)
        requires
            0 <= v < 0x1_0000_0000,
            q1 == v / 256,
            q2 == v / 65536,
            q3 == v / 16777216,
    ;
    assert(v == 256 * q1 + v % 256);
    assert(q1 == 256 * q2 + q1 % 256);
    assert(q2 == 256 * q3 + q2 % 256);
    assert(le_bytes(value)[0] == v % 256);
    assert(le_bytes(value)[1] == q1 % 256);
    assert(le_bytes(value)[2] == q2 % 256);
    assert(le_bytes(value)[3] == q3);
}

} // verus!
