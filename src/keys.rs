//! Public and private keys on the ristretto255 curve, held as their 32-byte
//! canonical encodings. The curve arithmetic is tari_crypto's.
use crate::byte_vector::{byte_vector_create, ByteVector};
use tari_crypto::keys::{PublicKey, SecretKey};
use tari_crypto::ristretto::{RistrettoPublicKey, RistrettoSecretKey};
use tari_crypto::tari_utilities::ByteArray;
use vstd::arithmetic::power2::pow2;
use vstd::prelude::*;

verus! {

/// The length in bytes of an encoded key.
pub const KEY_LENGTH: usize = 32;

/// Whether the bytes are the canonical encoding of a point on ristretto255.
pub uninterp spec fn is_canonical_point(bytes: Seq<u8>) -> bool;

/// The order of the ristretto255 group, which scalars are reduced by.
pub open spec fn group_order() -> nat {
    pow2(252) + 27742317777372353535851937790883648493
}

/// The number that bytes encode in little-endian order.
pub open spec fn little_endian_value(bytes: Seq<u8>) -> nat
    decreases bytes.len(),
{
    if bytes.len() == 0 {
        0
    } else {
        bytes[0] as nat + 256 * little_endian_value(bytes.drop_first())
    }
}

/// Whether the bytes are the canonical encoding of a ristretto255 scalar:
/// 32 bytes whose little-endian value is below the group order.
pub open spec fn is_canonical_scalar(bytes: Seq<u8>) -> bool {
    bytes.len() == KEY_LENGTH && little_endian_value(bytes) < group_order()
}

/// The encoded public key that belongs to an encoded secret key.
pub uninterp spec fn public_key_of(secret: Seq<u8>) -> Seq<u8>;

/// The bytes that a hex string decodes to, if it is well-formed hex.
pub uninterp spec fn hex_decoded(text: Seq<char>) -> Option<Seq<u8>>;

/// Relies on `RistrettoPublicKey::from_canonical_bytes`, which accepts exactly
/// 32 bytes that encode a point, and keeps those bytes as the key's encoding.
#[verifier::external_body]
fn point_accepted(bytes: &[u8]) -> (r: bool)
    ensures
        r == is_canonical_point(bytes@),
        r ==> bytes@.len() == KEY_LENGTH,
{
    RistrettoPublicKey::from_canonical_bytes(bytes).is_ok()
}

/// Relies on `RistrettoSecretKey::from_canonical_bytes`, which accepts exactly
/// 32 bytes that encode a reduced scalar, and keeps those bytes as the key's encoding.
#[verifier::external_body]
fn scalar_accepted(bytes: &[u8]) -> (r: bool)
    ensures
        r == is_canonical_scalar(bytes@),
        r ==> bytes@.len() == KEY_LENGTH,
{
    RistrettoSecretKey::from_canonical_bytes(bytes).is_ok()
}

/// Relies on `RistrettoPublicKey::from_secret_key`: the public key of a secret
/// key, whose compressed encoding is a canonical point.
#[verifier::external_body]
fn derive_public_key(secret: &[u8; 32]) -> (r: [u8; 32])
    requires
        is_canonical_scalar(secret@),
    ensures
        r@ == public_key_of(secret@),
        is_canonical_point(r@),
{
    match RistrettoSecretKey::from_canonical_bytes(secret) {
        Ok(k) => {
            let mut out = [0u8; 32];
            out.copy_from_slice(RistrettoPublicKey::from_secret_key(&k).as_bytes());
            out
        },
        Err(_) => [0u8; 32],
    }
}

/// Relies on `rand::rngs::SysRng` through `rand::TryRng::try_fill_bytes`:
/// 64 bytes from the operating system's random source, or `None` when that
/// source fails. Nothing is promised of the bytes themselves.
#[verifier::external_body]
fn system_random_wide() -> (r: Option<[u8; 64]>) {
    let mut wide = [0u8; 64];
    match rand::TryRng::try_fill_bytes(&mut rand::rngs::SysRng, &mut wide) {
        Ok(()) => Some(wide),
        Err(_) => None,
    }
}

/// Relies on `RistrettoSecretKey::from_uniform_bytes`, which accepts exactly
/// 64 bytes and reduces their little-endian value modulo the group order;
/// the scalar's encoding is the canonical one of that value.
#[verifier::external_body]
fn reduce_wide(wide: &[u8; 64]) -> (r: [u8; 32])
    ensures
        little_endian_value(r@) == little_endian_value(wide@) % group_order(),
        is_canonical_scalar(r@),
{
    match RistrettoSecretKey::from_uniform_bytes(wide) {
        Ok(k) => {
            let mut out = [0u8; 32];
            out.copy_from_slice(k.as_bytes());
            out
        },
        Err(_) => [0u8; 32],
    }
}

/// Relies on `tari_utilities::hex::from_hex`, the decoding that key types use
/// before they check the decoded bytes.
#[verifier::external_body]
fn decode_hex(text: &str) -> (r: Option<Vec<u8>>)
    ensures
        r is Some <==> hex_decoded(text@) is Some,
        r is Some ==> r->0@ == hex_decoded(text@)->0,
{
    tari_crypto::tari_utilities::hex::from_hex(text).ok()
}

/// Copies a slice already known to hold exactly 32 bytes into a key array.
fn to_key_array(bytes: &[u8]) -> (r: [u8; 32])
    requires
        bytes@.len() == KEY_LENGTH,
    ensures
        r@ == bytes@,
{
    let mut out = [0u8; 32];
    let mut i: usize = 0;
    while i < KEY_LENGTH
        invariant
            bytes@.len() == KEY_LENGTH,
            out@.len() == KEY_LENGTH,
            i <= KEY_LENGTH,
            forall|j: int| 0 <= j < i ==> out@[j] == bytes@[j],
        decreases KEY_LENGTH - i,
    {
        out[i] = bytes[i];
        i = i + 1;
    }
    assert(out@ =~= bytes@);
    out
}

/// A public key, held as the canonical encoding of its point.
#[derive(Clone, Copy, Debug)]
pub struct TariPublicKey {
    bytes: [u8; 32],
}

impl View for TariPublicKey {
    type V = Seq<u8>;

    closed spec fn view(&self) -> Seq<u8> {
        self.bytes@
    }
}

impl TariPublicKey {
    #[verifier::type_invariant]
    closed spec fn encodes_point(self) -> bool {
        is_canonical_point(self.bytes@)
    }

    /// The key's encoding is a canonical point, 32 bytes long.
    pub fn encoding(&self) -> (r: [u8; 32])
        ensures
            r@ == self@,
            is_canonical_point(self@),
    {
        proof {
            use_type_invariant(self);
        }
        self.bytes
    }

    /// Whether two keys have the same encoding.
    pub fn same_key(&self, other: &TariPublicKey) -> (r: bool)
        ensures
            r == (self@ == other@),
    {
        let mut i: usize = 0;
        while i < KEY_LENGTH
            invariant
                self.bytes@.len() == KEY_LENGTH,
                other.bytes@.len() == KEY_LENGTH,
                i <= KEY_LENGTH,
                forall|j: int| 0 <= j < i ==> self@[j] == other@[j],
            decreases KEY_LENGTH - i,
        {
            if self.bytes[i] != other.bytes[i] {
                return false;
            }
            i = i + 1;
        }
        assert(self@ =~= other@);
        true
    }
}

/// A private key, held as the canonical encoding of its scalar. It has no
/// debug rendering, so key material leaves only through an explicit export.
#[derive(Clone, Copy)]
pub struct TariPrivateKey {
    bytes: [u8; 32],
}

impl View for TariPrivateKey {
    type V = Seq<u8>;

    closed spec fn view(&self) -> Seq<u8> {
        self.bytes@
    }
}

impl TariPrivateKey {
    #[verifier::type_invariant]
    closed spec fn encodes_scalar(self) -> bool {
        is_canonical_scalar(self.bytes@)
    }

    /// The key's encoding is a canonical scalar, 32 bytes long.
    pub fn encoding(&self) -> (r: [u8; 32])
        ensures
            r@ == self@,
            is_canonical_scalar(self@),
    {
        proof {
            use_type_invariant(self);
        }
        self.bytes
    }
}

/// A public key from its encoding in a buffer; null when the handle is null or
/// the bytes do not encode a point.
pub fn public_key_create(bytes: Option<&ByteVector>) -> (r: Option<TariPublicKey>)
    ensures
        r is Some <==> (bytes is Some && is_canonical_point(bytes->0@)),
        r is Some ==> r->0@ == bytes->0@,
        bytes is Some ==> public_key_from_bytes(bytes->0@) == (match r {
            Some(k) => Some(k@),
            None => None,
        }),
{
    match bytes {
        None => None,
        Some(b) => {
            let v = b.to_vec();
            if point_accepted(v.as_slice()) {
                Some(TariPublicKey { bytes: to_key_array(v.as_slice()) })
            } else {
                None
            }
        },
    }
}

/// Releases a public key. A null handle is accepted and nothing happens.
pub fn public_key_destroy(pk: Option<TariPublicKey>) {
    let _ = pk;
}

/// The key's 32-byte encoding in a new buffer, or null for a null handle.
pub fn public_key_get_bytes(pk: Option<&TariPublicKey>) -> (r: Option<ByteVector>)
    ensures
        r is Some <==> pk is Some,
        r is Some ==> r->0@ == pk->0@ && r->0@.len() == KEY_LENGTH,
{
    match pk {
        None => None,
        Some(k) => {
            let bytes = k.encoding();
            byte_vector_create(Some(bytes.as_slice()), 32)
        },
    }
}

/// The public key of a private key, or null for a null handle.
pub fn public_key_from_private_key(secret_key: Option<&TariPrivateKey>) -> (r: Option<TariPublicKey>)
    ensures
        r is Some <==> secret_key is Some,
        r is Some ==> r->0@ == public_key_of(secret_key->0@),
{
    match secret_key {
        None => None,
        Some(k) => {
            let secret = k.encoding();
            Some(TariPublicKey { bytes: derive_public_key(&secret) })
        },
    }
}

/// A public key from its hex encoding; null when the text is null, is not hex,
/// or does not decode to a point.
pub fn public_key_from_hex(key: Option<&str>) -> (r: Option<TariPublicKey>)
    ensures
        r is Some <==> (key is Some && hex_decoded(key->0@) is Some && is_canonical_point(
            hex_decoded(key->0@)->0,
        )),
        r is Some ==> r->0@ == hex_decoded(key->0@)->0,
{
    match key {
        None => None,
        Some(text) => match decode_hex(text) {
            None => None,
            Some(v) => {
                if point_accepted(v.as_slice()) {
                    Some(TariPublicKey { bytes: to_key_array(v.as_slice()) })
                } else {
                    None
                }
            },
        },
    }
}

/// A private key from its encoding in a buffer; null when the handle is null or
/// the bytes do not encode a scalar.
pub fn private_key_create(bytes: Option<&ByteVector>) -> (r: Option<TariPrivateKey>)
    ensures
        r is Some <==> (bytes is Some && is_canonical_scalar(bytes->0@)),
        r is Some ==> r->0@ == bytes->0@,
        bytes is Some ==> private_key_from_bytes(bytes->0@) == (match r {
            Some(k) => Some(k@),
            None => None,
        }),
{
    match bytes {
        None => None,
        Some(b) => {
            let v = b.to_vec();
            if scalar_accepted(v.as_slice()) {
                Some(TariPrivateKey { bytes: to_key_array(v.as_slice()) })
            } else {
                None
            }
        },
    }
}

/// Releases a private key. A null handle is accepted and nothing happens.
pub fn private_key_destroy(pk: Option<TariPrivateKey>) {
    let _ = pk;
}

/// The key's 32-byte encoding in a new buffer, or null for a null handle.
pub fn private_key_get_bytes(pk: Option<&TariPrivateKey>) -> (r: Option<ByteVector>)
    ensures
        r is Some <==> pk is Some,
        r is Some ==> r->0@ == pk->0@ && r->0@.len() == KEY_LENGTH,
{
    match pk {
        None => None,
        Some(k) => {
            let bytes = k.encoding();
            byte_vector_create(Some(bytes.as_slice()), 32)
        },
    }
}

/// A new private key drawn from the operating system's random source;
/// null when that source fails.
pub fn private_key_generate() -> (r: Option<TariPrivateKey>)
    ensures
        r is Some ==> is_canonical_scalar(r->0@) && r->0@.len() == KEY_LENGTH,
{
    match system_random_wide() {
        Some(wide) => Some(TariPrivateKey { bytes: reduce_wide(&wide) }),
        None => None,
    }
}

/// A private key from its hex encoding; null when the text is null, is not hex,
/// or does not decode to a scalar.
pub fn private_key_from_hex(key: Option<&str>) -> (r: Option<TariPrivateKey>)
    ensures
        r is Some <==> (key is Some && hex_decoded(key->0@) is Some && is_canonical_scalar(
            hex_decoded(key->0@)->0,
        )),
        r is Some ==> r->0@ == hex_decoded(key->0@)->0,
{
    match key {
        None => None,
        Some(text) => match decode_hex(text) {
            None => None,
            Some(v) => {
                if scalar_accepted(v.as_slice()) {
                    Some(TariPrivateKey { bytes: to_key_array(v.as_slice()) })
                } else {
                    None
                }
            },
        },
    }
}

/// The encoding that building a public key from `bytes` keeps, if it accepts them.
pub open spec fn public_key_from_bytes(bytes: Seq<u8>) -> Option<Seq<u8>> {
    if is_canonical_point(bytes) {
        Some(bytes)
    } else {
        None
    }
}

/// The encoding that building a private key from `bytes` keeps, if it accepts them.
pub open spec fn private_key_from_bytes(bytes: Seq<u8>) -> Option<Seq<u8>> {
    if is_canonical_scalar(bytes) {
        Some(bytes)
    } else {
        None
    }
}

/// Round trip: exporting a key's bytes and building a key from those bytes
/// gives a key with the same encoding, for public and for private keys.
pub proof fn lemma_key_round_trip(pk: TariPublicKey, sk: TariPrivateKey)
    requires
        is_canonical_point(pk@),
        is_canonical_scalar(sk@),
    ensures
        public_key_from_bytes(pk@) == Some(pk@),
        private_key_from_bytes(sk@) == Some(sk@),
{
}

/// Every key, private or public, exports to exactly 32 bytes.
pub proof fn lemma_keys_export_32_bytes(pk: TariPublicKey, sk: TariPrivateKey)
    ensures
        pk@.len() == KEY_LENGTH,
        sk@.len() == KEY_LENGTH,
{
}

} // verus!
