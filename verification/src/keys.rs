//! The key bundle generator: the long-term identity key, the registration id,
//! the signed prekey and a batch of one-time prekeys of one device.
//!
//! Key pairs are Ed25519. A pair is derived from 32 secret bytes, its seed;
//! the seed is the private key. Private material is held by the bundle that
//! is handed to the caller and by nothing else in this crate; the types that
//! hold it cannot be printed.

use vstd::prelude::*;
use ed25519_dalek::Signature;
use ed25519_dalek::Signer;
use ed25519_dalek::SigningKey;
use ed25519_dalek::Verifier;
use ed25519_dalek::VerifyingKey;
use crate::entropy::random_below;
use crate::entropy::random_seed;
use crate::entropy::SEED_LENGTH;
use crate::error::CoreError;

verus! {

/// Length in bytes of a public key.
pub const PUBLIC_KEY_LENGTH: usize = 32;

/// Length in bytes of a signature.
pub const SIGNATURE_LENGTH: usize = 64;

/// The largest registration id.
pub const MAX_REGISTRATION_ID: u32 = 16380;

/// The Ed25519 public key that belongs to a seed of 32 bytes.
pub uninterp spec fn ed25519_public(seed: Seq<u8>) -> Seq<u8>;

/// The Ed25519 signature that the key pair of a seed of 32 bytes makes over a message.
pub uninterp spec fn ed25519_signature(seed: Seq<u8>, message: Seq<u8>) -> Seq<u8>;

/// Whether Ed25519 verification accepts a signature over a message under a
/// public key. It accepts nothing under bytes that are no public key.
pub uninterp spec fn ed25519_accepts(public_key: Seq<u8>, message: Seq<u8>, signature: Seq<u8>) -> bool;

/// The public key of a seed: `SigningKey::from_bytes`, `verifying_key` and
/// `VerifyingKey::to_bytes` of `ed25519_dalek`, which together are a function
/// of the seed alone and give 32 bytes.
#[verifier::external_body]
fn public_key_of(seed: &Vec<u8>) -> (r: Vec<u8>)
    requires
        seed@.len() == SEED_LENGTH,
    ensures
        r@ == ed25519_public(seed@),
        r@.len() == PUBLIC_KEY_LENGTH,
{
    let mut secret = [0u8; SEED_LENGTH];
    secret.copy_from_slice(seed);
    SigningKey::from_bytes(&secret).verifying_key().to_bytes().to_vec()
}

/// The signature of a seed's key pair over a message: `Signer::sign` of
/// `ed25519_dalek` on the `SigningKey` of the seed, which is a function of
/// seed and message alone and gives 64 bytes.
#[verifier::external_body]
fn sign_with(seed: &Vec<u8>, message: &Vec<u8>) -> (r: Vec<u8>)
    requires
        seed@.len() == SEED_LENGTH,
    ensures
        r@ == ed25519_signature(seed@, message@),
        r@.len() == SIGNATURE_LENGTH,
{
    let mut secret = [0u8; SEED_LENGTH];
    secret.copy_from_slice(seed);
    SigningKey::from_bytes(&secret).sign(message).to_bytes().to_vec()
}

/// Whether a signature over a message verifies under a public key:
/// `Verifier::verify` of `ed25519_dalek` on `VerifyingKey::from_bytes` of the
/// key, a function of the three byte strings alone. Bytes that
/// `VerifyingKey::from_bytes` refuses verify nothing.
#[verifier::external_body]
fn accepts(public_key: &Vec<u8>, message: &Vec<u8>, signature: &Vec<u8>) -> (r: bool)
    requires
        public_key@.len() == PUBLIC_KEY_LENGTH,
        signature@.len() == SIGNATURE_LENGTH,
    ensures
        r == ed25519_accepts(public_key@, message@, signature@),
{
    let mut key = [0u8; PUBLIC_KEY_LENGTH];
    key.copy_from_slice(public_key);
    let mut sig = [0u8; SIGNATURE_LENGTH];
    sig.copy_from_slice(signature);
    match VerifyingKey::from_bytes(&key) {
        Ok(k) => k.verify(message, &Signature::from_bytes(&sig)).is_ok(),
        Err(_) => false,
    }
}

/// Whether `signature` is a signature over `message` under `public_key`.
/// Byte strings of the wrong length are no key and no signature.
pub open spec fn verifies(public_key: Seq<u8>, message: Seq<u8>, signature: Seq<u8>) -> bool {
    &&& public_key.len() == PUBLIC_KEY_LENGTH
    &&& signature.len() == SIGNATURE_LENGTH
    &&& ed25519_accepts(public_key, message, signature)
}

/// Whether `signature` is a signature over `message` under `public_key`.
pub fn verify_signature(public_key: &Vec<u8>, message: &Vec<u8>, signature: &Vec<u8>) -> (r: bool)
    ensures
        r == verifies(public_key@, message@, signature@),
{
    if public_key.len() != PUBLIC_KEY_LENGTH || signature.len() != SIGNATURE_LENGTH {
        return false;
    }
    accepts(public_key, message, signature)
}

/// A key pair. The private key is the seed of the pair.
#[derive(Clone, PartialEq, Eq)]
pub struct KeyPair {
    pub public_key: Vec<u8>,
    pub private_key: Vec<u8>,
}

/// The signed prekey of a device: a key pair, and the identity key's
/// signature over its public key.
#[derive(Clone, PartialEq, Eq)]
pub struct SignedPrekey {
    pub id: i32,
    pub public_key: Vec<u8>,
    pub private_key: Vec<u8>,
    pub signature: Vec<u8>,
}

/// A one-time prekey: a key pair under an id.
#[derive(Clone, PartialEq, Eq)]
pub struct Prekey {
    pub id: i32,
    pub public_key: Vec<u8>,
    pub private_key: Vec<u8>,
}

/// All the key material of one device.
#[derive(Clone, PartialEq, Eq)]
pub struct KeyBundle {
    pub identity: KeyPair,
    pub registration_id: i32,
    pub signed_prekey: SignedPrekey,
    pub one_time_prekeys: Vec<Prekey>,
}

/// Whether the ids `first`, `first + 1`, ... of `count` prekeys can all be stored.
pub open spec fn ids_fit(first: i32, count: int) -> bool {
    first + count <= i32::MAX + 1
}

impl KeyBundle {
    /// The ids of the one-time prekeys, in order.
    pub open spec fn prekey_ids(&self) -> Seq<i32> {
        Seq::new(self.one_time_prekeys@.len(), |i: int| self.one_time_prekeys@[i].id)
    }

    /// Whether the identity key's signature over the signed prekey's public
    /// key verifies.
    pub open spec fn self_consistent(&self) -> bool {
        verifies(self.identity.public_key@, self.signed_prekey.public_key@, self.signed_prekey.signature@)
    }

    /// Whether the one-time prekeys carry the ids `first`, `first + 1`, ... in order.
    pub open spec fn sequential_from(&self, first: i32) -> bool {
        forall|i: int|
            0 <= i < self.one_time_prekeys@.len() ==> (#[trigger] self.one_time_prekeys@[i]).id
                == first + i
    }

    /// Whether the bundle is the one derived from the given seeds: every
    /// public key belongs to its seed, the signature is the identity key's
    /// over the signed prekey's public key, and the one-time prekeys carry the
    /// ids `first_prekey_id`, `first_prekey_id + 1`, ... in the order of their seeds.
    pub open spec fn derived_from(
        &self,
        identity_seed: Seq<u8>,
        registration_id: i32,
        signed_prekey_id: i32,
        signed_seed: Seq<u8>,
        first_prekey_id: i32,
        one_time_seeds: Seq<Seq<u8>>,
    ) -> bool {
        &&& self.identity.private_key@ == identity_seed
        &&& self.identity.public_key@ == ed25519_public(identity_seed)
        &&& self.registration_id == registration_id
        &&& self.signed_prekey.id == signed_prekey_id
        &&& self.signed_prekey.private_key@ == signed_seed
        &&& self.signed_prekey.public_key@ == ed25519_public(signed_seed)
        &&& self.signed_prekey.signature@ == ed25519_signature(
            identity_seed,
            ed25519_public(signed_seed),
        )
        &&& self.one_time_prekeys@.len() == one_time_seeds.len()
        &&& forall|i: int|
            0 <= i < one_time_seeds.len() ==> {
                let p = #[trigger] self.one_time_prekeys@[i];
                &&& p.id == first_prekey_id + i
                &&& p.private_key@ == one_time_seeds[i]
                &&& p.public_key@ == ed25519_public(one_time_seeds[i])
            }
    }

    /// Whether the identity key's signature over the signed prekey's public
    /// key verifies.
    pub fn check(&self) -> (r: bool)
        ensures
            r == self.self_consistent(),
    {
        verify_signature(
            &self.identity.public_key,
            &self.signed_prekey.public_key,
            &self.signed_prekey.signature,
        )
    }
}

/// Whether every seed has the length of a seed.
pub open spec fn seeds_well_sized(seeds: Seq<Seq<u8>>) -> bool {
    forall|i: int| 0 <= i < seeds.len() ==> (#[trigger] seeds[i]).len() == SEED_LENGTH
}

/// The views of a list of seeds.
pub open spec fn seed_views(seeds: Seq<Vec<u8>>) -> Seq<Seq<u8>> {
    Seq::new(seeds.len(), |i: int| seeds[i]@)
}

/// Whether a bundle can be derived from the given material: every seed has
/// 32 bytes, the prekey ids can be stored, and the signature that the
/// identity key makes over the signed prekey's public key verifies.
pub open spec fn derivable(
    identity_seed: Seq<u8>,
    signed_seed: Seq<u8>,
    first_prekey_id: i32,
    one_time_seeds: Seq<Seq<u8>>,
) -> bool {
    &&& identity_seed.len() == SEED_LENGTH
    &&& signed_seed.len() == SEED_LENGTH
    &&& seeds_well_sized(one_time_seeds)
    &&& ids_fit(first_prekey_id, one_time_seeds.len() as int)
    &&& verifies(
        ed25519_public(identity_seed),
        ed25519_public(signed_seed),
        ed25519_signature(identity_seed, ed25519_public(signed_seed)),
    )
}

/// Derives the bundle of the given seeds. Nothing is drawn at random here:
/// the bundle is a function of the arguments. Fails with
/// `KeyGenerationError`, and hands out no part of a bundle, where the
/// material is not `derivable`.
pub fn assemble_bundle(
    identity_seed: Vec<u8>,
    registration_id: i32,
    signed_prekey_id: i32,
    signed_seed: Vec<u8>,
    first_prekey_id: i32,
    one_time_seeds: Vec<Vec<u8>>,
) -> (r: Result<KeyBundle, CoreError>)
    ensures
        derivable(identity_seed@, signed_seed@, first_prekey_id, seed_views(one_time_seeds@)) ==> (r
            matches Ok(b) && b.derived_from(
            identity_seed@,
            registration_id,
            signed_prekey_id,
            signed_seed@,
            first_prekey_id,
            seed_views(one_time_seeds@),
        ) && b.self_consistent() && b.sequential_from(first_prekey_id)),
        !derivable(identity_seed@, signed_seed@, first_prekey_id, seed_views(one_time_seeds@))
            ==> r == Err::<KeyBundle, CoreError>(CoreError::KeyGenerationError),
{
    let ghost seeds = seed_views(one_time_seeds@);
    if identity_seed.len() != SEED_LENGTH || signed_seed.len() != SEED_LENGTH {
        return Err(CoreError::KeyGenerationError);
    }
    let count = one_time_seeds.len();
    let room: i64 = i32::MAX as i64 + 1 - first_prekey_id as i64;
    if count as u64 > room as u64 {
        return Err(CoreError::KeyGenerationError);
    }
    let identity_public = public_key_of(&identity_seed);
    let signed_public = public_key_of(&signed_seed);
    let signature = sign_with(&identity_seed, &signed_public);
    if !verify_signature(&identity_public, &signed_public, &signature) {
        return Err(CoreError::KeyGenerationError);
    }
    let mut prekeys: Vec<Prekey> = Vec::new();
    let mut i: usize = 0;
    while i < count
        invariant
            i <= count,
            count == one_time_seeds@.len(),
            seeds == seed_views(one_time_seeds@),
            ids_fit(first_prekey_id, count as int),
            prekeys@.len() == i,
            forall|k: int| 0 <= k < i ==> (#[trigger] seeds[k]).len() == SEED_LENGTH,
            forall|k: int|
                0 <= k < i ==> {
                    let p = #[trigger] prekeys@[k];
                    &&& p.id == first_prekey_id + k
                    &&& p.private_key@ == seeds[k]
                    &&& p.public_key@ == ed25519_public(seeds[k])
                },
        decreases count - i,
    {
        if one_time_seeds[i].len() != SEED_LENGTH {
            assert(seeds[i as int].len() != SEED_LENGTH);
            return Err(CoreError::KeyGenerationError);
        }
        assert(seeds[i as int] == one_time_seeds@[i as int]@);
        let public_key = public_key_of(&one_time_seeds[i]);
        let private_key = one_time_seeds[i].clone();
        let id: i32 = (first_prekey_id as i64 + i as i64) as i32;
        prekeys.push(Prekey { id, public_key, private_key });
        i = i + 1;
    }
    Ok(
        KeyBundle {
            identity: KeyPair { public_key: identity_public, private_key: identity_seed },
            registration_id,
            signed_prekey: SignedPrekey {
                id: signed_prekey_id,
                public_key: signed_public,
                private_key: signed_seed,
                signature,
            },
            one_time_prekeys: prekeys,
        },
    )
}

/// Draws `count` seeds, one draw from the source for each. `None` as soon
/// as the source fails. Where no seed is asked for the source is not drawn
/// from, and the empty list is handed back.
fn draw_seeds(count: u32) -> (r: Option<Vec<Vec<u8>>>)
    ensures
        r matches Some(seeds) ==> seeds@.len() == count && seeds_well_sized(seed_views(seeds@)),
        count == 0 ==> r is Some,
{
    let mut seeds: Vec<Vec<u8>> = Vec::new();
    let mut i: u32 = 0;
    while i < count
        invariant
            i <= count,
            seeds@.len() == i,
            seeds_well_sized(seed_views(seeds@)),
        decreases count - i,
    {
        match random_seed() {
            Some(seed) => {
                let ghost before = seeds@;
                seeds.push(seed);
                assert forall|k: int| 0 <= k < seeds@.len() implies (#[trigger] seed_views(
                    seeds@,
                )[k]).len() == SEED_LENGTH by {
                    if k < before.len() {
                        assert(seed_views(before)[k] == seed_views(seeds@)[k]);
                    }
                }
            },
            None => {
                return None;
            },
        }
        i = i + 1;
    }
    Some(seeds)
}

/// Generates the key bundle of one device: a fresh identity key pair, a
/// registration id between 1 and `MAX_REGISTRATION_ID`, a signed prekey under
/// `signed_prekey_id`, and `one_time_prekey_count` one-time prekeys under the
/// ids `first_prekey_id`, `first_prekey_id + 1`, ...
///
/// The seeds come from the system's source of randomness, so the contract
/// states what holds of every bundle that comes back: it is the bundle
/// derived from some seeds of the right number, and its signature verifies.
/// Fails with `KeyGenerationError` where the source or the signature fails;
/// where the ids cannot be stored it always fails.
pub fn generate_bundle(one_time_prekey_count: u32, signed_prekey_id: i32, first_prekey_id: i32) -> (r:
    Result<KeyBundle, CoreError>)
    ensures
        match r {
            Ok(b) => {
                &&& ids_fit(first_prekey_id, one_time_prekey_count as int)
                &&& b.one_time_prekeys@.len() == one_time_prekey_count
                &&& b.sequential_from(first_prekey_id)
                &&& b.signed_prekey.id == signed_prekey_id
                &&& 1 <= b.registration_id <= MAX_REGISTRATION_ID
                &&& b.self_consistent()
                &&& exists|identity_seed: Seq<u8>, signed_seed: Seq<u8>, seeds: Seq<Seq<u8>>|
                    derivable(identity_seed, signed_seed, first_prekey_id, seeds)
                        && #[trigger] b.derived_from(
                        identity_seed,
                        b.registration_id,
                        signed_prekey_id,
                        signed_seed,
                        first_prekey_id,
                        seeds,
                    )
            },
            Err(e) => e == CoreError::KeyGenerationError,
        },
        !ids_fit(first_prekey_id, one_time_prekey_count as int) ==> r is Err,
{
    let identity_seed = match random_seed() {
        Some(s) => s,
        None => {
            return Err(CoreError::KeyGenerationError);
        },
    };
    let signed_seed = match random_seed() {
        Some(s) => s,
        None => {
            return Err(CoreError::KeyGenerationError);
        },
    };
    let seeds = match draw_seeds(one_time_prekey_count) {
        Some(s) => s,
        None => {
            return Err(CoreError::KeyGenerationError);
        },
    };
    let registration_id: i32 = (1 + random_below(MAX_REGISTRATION_ID)) as i32;
    let ghost identity_view = identity_seed@;
    let ghost signed_view = signed_seed@;
    let ghost seeds_view = seed_views(seeds@);
    let r = assemble_bundle(
        identity_seed,
        registration_id,
        signed_prekey_id,
        signed_seed,
        first_prekey_id,
        seeds,
    );
    proof {
        if r is Ok {
            assert(derivable(identity_view, signed_view, first_prekey_id, seeds_view));
            assert(r.unwrap().derived_from(
                identity_view,
                registration_id,
                signed_prekey_id,
                signed_view,
                first_prekey_id,
                seeds_view,
            ));
        }
    }
    r
}

} // verus!
