use vstd::prelude::*;
use std::collections::BTreeMap;
use frost_secp256k1_tr::keys::dkg;
use frost_secp256k1_tr::keys::{EvenY, KeyPackage, PublicKeyPackage, SigningShare, Tweak, VerifyingShare};
use frost_secp256k1_tr::round1::{NonceCommitment, SigningCommitments, SigningNonces};
use frost_secp256k1_tr::round2::SignatureShare;
use frost_secp256k1_tr::{Identifier, SigningPackage, VerifyingKey};
use frost_core::round1::Nonce;

verus! {

/// A FROST key package held as plain values: the canonical encodings of the
/// identifier and signing share (32 bytes each), of the verifying share and
/// group verifying key (33-byte compressed points), and the threshold.
#[derive(Debug, Clone)]
pub struct KeyShare {
    pub identifier: Vec<u8>,
    pub signing_share: Vec<u8>,
    pub verifying_share: Vec<u8>,
    pub verifying_key: Vec<u8>,
    pub min_signers: u16,
}

/// The field lengths of the encodings that the curve library produces.
pub open spec fn key_share_encoded(k: KeyShare) -> bool {
    &&& k.identifier@.len() == 32
    &&& k.signing_share@.len() == 32
    &&& k.verifying_share@.len() == 33
    &&& k.verifying_key@.len() == 33
}

/// The parts of a key share as byte strings and threshold.
pub type KeyParts = (Seq<u8>, Seq<u8>, Seq<u8>, Seq<u8>, u16);

/// The parts of a key share.
pub open spec fn key_parts(k: KeyShare) -> KeyParts {
    (k.identifier@, k.signing_share@, k.verifying_share@, k.verifying_key@, k.min_signers)
}

/// A commitment entry: participant identifier, then hiding and binding points.
pub type CommitmentEntry = (Vec<u8>, (Vec<u8>, Vec<u8>));

/// Commitment entries as byte strings.
pub open spec fn commitments_view(s: Seq<CommitmentEntry>) -> Seq<(Seq<u8>, (Seq<u8>, Seq<u8>))> {
    s.map_values(|e: CommitmentEntry| (e.0@, (e.1.0@, e.1.1@)))
}

/// Identifier-keyed entries as byte strings.
pub open spec fn pairs_view(s: Seq<(Vec<u8>, Vec<u8>)>) -> Seq<(Seq<u8>, Seq<u8>)> {
    s.map_values(|e: (Vec<u8>, Vec<u8>)| (e.0@, e.1@))
}

/// An optional byte string as its view.
pub open spec fn bytes_opt(r: Option<Vec<u8>>) -> Option<Seq<u8>> {
    match r {
        Some(v) => Some(v@),
        None => None,
    }
}

/// An optional key share as its parts.
pub open spec fn parts_opt(r: Option<KeyShare>) -> Option<KeyParts> {
    match r {
        Some(k) => Some(key_parts(k)),
        None => None,
    }
}

/// An optional round-two result as byte strings.
pub open spec fn part2_opt(r: Option<(Vec<u8>, Vec<(Vec<u8>, Vec<u8>)>)>) -> Option<(Seq<u8>, Seq<(Seq<u8>, Seq<u8>)>)> {
    match r {
        Some(t) => Some((t.0@, pairs_view(t.1@))),
        None => None,
    }
}

/// The big-endian value of a byte string.
pub open spec fn be_value(b: Seq<u8>) -> nat
    decreases b.len(),
{
    if b.len() == 0 {
        0
    } else {
        be_value(b.drop_last()) * 256 + b.last() as nat
    }
}

/// The order of the secp256k1 group.
pub open spec fn group_order() -> nat {
    (0xFFFFFFFFFFFFFFFFFFFFFFFFFFFFFFFEu128 as nat) * ((u128::MAX as nat) + 1)
        + (0xBAAEDCE6AF48A03BBFD25E8CD0364141u128 as nat)
}

/// A canonical scalar encoding: 32 big-endian bytes below the group order.
pub open spec fn scalar_accepted(b: Seq<u8>) -> bool {
    b.len() == 32 && be_value(b) < group_order()
}

/// Whether 33 bytes are the compressed encoding of a curve point other than
/// the identity.
pub uninterp spec fn point_accepted(b: Seq<u8>) -> bool;

/// The encoded commitment to a nonce: the nonce times the group generator.
pub uninterp spec fn nonce_commitment_of(nonce: Seq<u8>) -> Option<Seq<u8>>;

/// The encoded signing package of a commitment list and a message.
pub uninterp spec fn signing_package_of(commitments: Seq<(Seq<u8>, (Seq<u8>, Seq<u8>))>, message: Seq<u8>) -> Option<Seq<u8>>;

/// The encoded key package assembled from its parts.
pub uninterp spec fn key_package_of(parts: KeyParts) -> Option<Seq<u8>>;

/// The parts of an encoded key package.
pub uninterp spec fn key_parts_of(key_package: Seq<u8>) -> Option<KeyParts>;

/// An encoded key package tweaked by a Merkle root.
pub uninterp spec fn tweaked_of(key_package: Seq<u8>, merkle_root: Seq<u8>) -> Option<Seq<u8>>;

/// An encoded key package with its group key brought to even Y.
pub uninterp spec fn even_y_of(key_package: Seq<u8>, is_even: bool) -> Option<Seq<u8>>;

/// Whether an encoded group key has even Y.
pub uninterp spec fn has_even_y_of(verifying_key: Seq<u8>) -> Option<bool>;

/// The signature share of an untweaked signing.
pub uninterp spec fn share_of(signing_package: Seq<u8>, hiding: Seq<u8>, binding: Seq<u8>, key_package: Seq<u8>) -> Option<Seq<u8>>;

/// The signature share of a signing tweaked by a Merkle root.
pub uninterp spec fn tweaked_share_of(signing_package: Seq<u8>, hiding: Seq<u8>, binding: Seq<u8>, key_package: Seq<u8>, merkle_root: Seq<u8>) -> Option<Seq<u8>>;

/// The encoded public key package of verifying shares and a group key.
pub uninterp spec fn public_key_package_of(shares: Seq<(Seq<u8>, Seq<u8>)>, verifying_key: Seq<u8>) -> Option<Seq<u8>>;

/// The signature that a set of shares aggregates to under a Merkle root.
pub uninterp spec fn aggregate_of(signing_package: Seq<u8>, shares: Seq<(Seq<u8>, Seq<u8>)>, public_key_package: Seq<u8>, merkle_root: Seq<u8>) -> Option<Seq<u8>>;

/// Whether a signature verifies, for the message of a signing package,
/// under the group key of a public key package tweaked by a Merkle root.
pub uninterp spec fn verifies_under(signing_package: Seq<u8>, public_key_package: Seq<u8>, merkle_root: Seq<u8>, signature: Seq<u8>) -> bool;

/// Whether bytes encode a round-one secret package as key generation makes it.
pub uninterp spec fn round1_secret_sound(secret: Seq<u8>) -> bool;

/// Whether bytes encode a round-two secret package as key generation makes it.
pub uninterp spec fn round2_secret_sound(secret: Seq<u8>) -> bool;

/// The next secret and the outgoing packages of key-generation round two.
pub uninterp spec fn dkg_part2_of(secret: Seq<u8>, round1: Seq<(Seq<u8>, Seq<u8>)>) -> Option<(Seq<u8>, Seq<(Seq<u8>, Seq<u8>)>)>;

/// The encoded key package that key-generation round three finishes.
pub uninterp spec fn dkg_part3_of(secret: Seq<u8>, round1: Seq<(Seq<u8>, Seq<u8>)>, round2: Seq<(Seq<u8>, Seq<u8>)>) -> Option<Seq<u8>>;

/// Relies on SigningShare::deserialize, which reads 32 big-endian bytes with
/// k256's Scalar::from_repr, refusing values not below the group order.
#[verifier::external_body]
pub(crate) fn scalar_bytes_ok(b: &[u8]) -> (r: bool)
    ensures
        r == scalar_accepted(b@),
{
    SigningShare::deserialize(b).is_ok()
}

/// Relies on VerifyingKey::deserialize, the group's decoding of a 33-byte
/// compressed point.
#[verifier::external_body]
pub(crate) fn point_bytes_ok(b: &[u8]) -> (r: bool)
    ensures
        r == point_accepted(b@),
        r ==> b@.len() == 33,
{
    VerifyingKey::deserialize(b).is_ok()
}

/// Relies on frost round1::commit with rand's thread-local generator: fresh
/// nonces for the signing share, and their commitments, each the nonce
/// times the generator (SigningNonces::from_nonces). Nonces encode as
/// `[u8; 32]` scalars and commitments as `[u8; 33]` points.
#[verifier::external_body]
pub(crate) fn commit_nonces(secret_share: &[u8]) -> (r: Option<(Vec<u8>, Vec<u8>, Vec<u8>, Vec<u8>)>)
    ensures
        r matches Some(t) ==> t.0@.len() == 32 && t.1@.len() == 32 && t.2@.len() == 33
            && t.3@.len() == 33,
        r matches Some(t) ==> nonce_commitment_of(t.0@) == Some(t.2@) && nonce_commitment_of(t.1@)
            == Some(t.3@),
{
    let share = SigningShare::deserialize(secret_share).ok()?;
    let (n, c) = frost_secp256k1_tr::round1::commit(&share, &mut rand::thread_rng());
    let (ch, cb) = (c.hiding().serialize().ok()?, c.binding().serialize().ok()?);
    Some((n.hiding().serialize(), n.binding().serialize(), ch, cb))
}

/// Relies on SigningPackage::new: the commitments keyed by identifier, and
/// the message; encoded.
#[verifier::external_body]
pub(crate) fn new_signing_package(commitments: &Vec<CommitmentEntry>, message: &[u8]) -> (r: Option<Vec<u8>>)
    ensures
        bytes_opt(r) == signing_package_of(commitments_view(commitments@), message@),
{
    let map = commitments.iter().map(|(i, (h, b))| Some((
        Identifier::deserialize(i).ok()?,
        SigningCommitments::new(NonceCommitment::deserialize(h).ok()?, NonceCommitment::deserialize(b).ok()?),
    ))).collect::<Option<BTreeMap<_, _>>>()?;
    SigningPackage::new(map, message).serialize().ok()
}

/// Relies on KeyPackage::new, which assembles the parts unchanged, encoded.
#[verifier::external_body]
pub(crate) fn new_key_package(k: &KeyShare) -> (r: Option<Vec<u8>>)
    ensures
        bytes_opt(r) == key_package_of(key_parts(*k)),
{
    KeyPackage::new(
        Identifier::deserialize(&k.identifier).ok()?,
        SigningShare::deserialize(&k.signing_share).ok()?,
        VerifyingShare::deserialize(&k.verifying_share).ok()?,
        VerifyingKey::deserialize(&k.verifying_key).ok()?,
        k.min_signers,
    ).serialize().ok()
}

/// Relies on the getters of KeyPackage, and on the encodings of its parts:
/// `[u8; 32]` for identifier and signing share, `[u8; 33]` for points.
#[verifier::external_body]
pub(crate) fn key_share_of(key_package: &[u8]) -> (r: Option<KeyShare>)
    ensures
        parts_opt(r) == key_parts_of(key_package@),
        r matches Some(k) ==> key_share_encoded(k),
{
    let k = KeyPackage::deserialize(key_package).ok()?;
    Some(KeyShare {
        identifier: k.identifier().serialize(),
        signing_share: k.signing_share().serialize(),
        verifying_share: k.verifying_share().serialize().ok()?,
        verifying_key: k.verifying_key().serialize().ok()?,
        min_signers: *k.min_signers(),
    })
}

/// Relies on Tweak::tweak for KeyPackage: the BIP-341 tweak by a tapscript
/// Merkle root, after even-Y correction.
#[verifier::external_body]
pub(crate) fn tweak_key_package(key_package: &[u8], merkle_root: &[u8]) -> (r: Option<Vec<u8>>)
    ensures
        bytes_opt(r) == tweaked_of(key_package@, merkle_root@),
{
    KeyPackage::deserialize(key_package).ok()?.tweak(Some(merkle_root)).serialize().ok()
}

/// Relies on EvenY::into_even_y for KeyPackage: negates the shares and the
/// group key unless `is_even` says the group key already has even Y.
#[verifier::external_body]
pub(crate) fn even_y_key_package(key_package: &[u8], is_even: bool) -> (r: Option<Vec<u8>>)
    ensures
        bytes_opt(r) == even_y_of(key_package@, is_even),
{
    KeyPackage::deserialize(key_package).ok()?.into_even_y(Some(is_even)).serialize().ok()
}

/// Relies on EvenY::has_even_y for VerifyingKey.
#[verifier::external_body]
pub(crate) fn verifying_key_has_even_y(verifying_key: &[u8]) -> (r: Option<bool>)
    ensures
        r == has_even_y_of(verifying_key@),
{
    Some(VerifyingKey::deserialize(verifying_key).ok()?.has_even_y())
}

/// Relies on frost round2::sign; a signature share encodes as a `[u8; 32]`.
#[verifier::external_body]
pub(crate) fn sign_share(signing_package: &[u8], hiding: &[u8], binding: &[u8], key_package: &[u8]) -> (r: Option<Vec<u8>>)
    ensures
        bytes_opt(r) == share_of(signing_package@, hiding@, binding@, key_package@),
        r matches Some(s) ==> s@.len() == 32,
{
    let pkg = SigningPackage::deserialize(signing_package).ok()?;
    let nonces = SigningNonces::from_nonces(Nonce::deserialize(hiding).ok()?, Nonce::deserialize(binding).ok()?);
    let kp = KeyPackage::deserialize(key_package).ok()?;
    Some(frost_secp256k1_tr::round2::sign(&pkg, &nonces, &kp).ok()?.serialize())
}

/// Relies on frost round2::sign_with_tweak, which signs with the key package
/// tweaked by the Merkle root; a signature share encodes as a `[u8; 32]`.
#[verifier::external_body]
pub(crate) fn sign_share_with_tweak(signing_package: &[u8], hiding: &[u8], binding: &[u8], key_package: &[u8], merkle_root: &[u8]) -> (r: Option<Vec<u8>>)
    ensures
        bytes_opt(r) == tweaked_share_of(signing_package@, hiding@, binding@, key_package@, merkle_root@),
        r matches Some(s) ==> s@.len() == 32,
{
    let pkg = SigningPackage::deserialize(signing_package).ok()?;
    let nonces = SigningNonces::from_nonces(Nonce::deserialize(hiding).ok()?, Nonce::deserialize(binding).ok()?);
    let kp = KeyPackage::deserialize(key_package).ok()?;
    let share = frost_secp256k1_tr::round2::sign_with_tweak(&pkg, &nonces, &kp, Some(merkle_root));
    Some(share.ok()?.serialize())
}

/// Relies on PublicKeyPackage::new: the verifying shares keyed by
/// identifier, and the group verifying key; encoded.
#[verifier::external_body]
pub(crate) fn new_public_key_package(shares: &Vec<(Vec<u8>, Vec<u8>)>, verifying_key: &[u8]) -> (r: Option<Vec<u8>>)
    ensures
        bytes_opt(r) == public_key_package_of(pairs_view(shares@), verifying_key@),
{
    let map = shares.iter().map(|(i, s)| Some((Identifier::deserialize(i).ok()?, VerifyingShare::deserialize(s).ok()?)))
        .collect::<Option<BTreeMap<_, _>>>()?;
    PublicKeyPackage::new(map, VerifyingKey::deserialize(verifying_key).ok()?).serialize().ok()
}

/// Relies on frost aggregate_with_tweak: combines the shares and returns
/// the signature only once it verifies under the public key package tweaked
/// by the Merkle root (frost-core's aggregate checks it before returning);
/// the signature encodes in the 64-byte BIP-340 form (serialize_signature).
#[verifier::external_body]
pub(crate) fn aggregate_shares_with_tweak(signing_package: &[u8], shares: &Vec<(Vec<u8>, Vec<u8>)>, public_key_package: &[u8], merkle_root: &[u8]) -> (r: Option<Vec<u8>>)
    ensures
        bytes_opt(r) == aggregate_of(signing_package@, pairs_view(shares@), public_key_package@, merkle_root@),
        r matches Some(s) ==> s@.len() == 64 && verifies_under(signing_package@, public_key_package@, merkle_root@, s@),
{
    let map = shares.iter().map(|(i, s)| Some((Identifier::deserialize(i).ok()?, SignatureShare::deserialize(s).ok()?)))
        .collect::<Option<BTreeMap<_, _>>>()?;
    let pkg = SigningPackage::deserialize(signing_package).ok()?;
    let pub_pkg = PublicKeyPackage::deserialize(public_key_package).ok()?;
    let sig = frost_secp256k1_tr::aggregate_with_tweak(&pkg, &map, &pub_pkg, Some(merkle_root));
    sig.ok()?.serialize().ok()
}

/// Relies on frost dkg::part1 with rand's thread-local generator: the
/// encoded secret package kept by this participant (a well-formed one, with
/// its coefficients and nonzero bounds), and the encoded public package for
/// the others.
#[verifier::external_body]
pub(crate) fn dkg_part1(identifier: &[u8], max_signers: u16, min_signers: u16) -> (r: Option<(Vec<u8>, Vec<u8>)>)
    ensures
        r matches Some(t) ==> round1_secret_sound(t.0@),
{
    let id = Identifier::deserialize(identifier).ok()?;
    let (secret, package) = dkg::part1(id, max_signers, min_signers, rand::thread_rng()).ok()?;
    Some((secret.serialize().ok()?, package.serialize().ok()?))
}

/// Relies on frost dkg::part2, given a secret package that part1 made: the
/// next encoded secret package (well formed, with nonzero bounds), and the
/// encoded package for each other participant, keyed by identifier
/// (identifiers encode as `[u8; 32]`).
#[verifier::external_body]
pub(crate) fn dkg_part2(secret: &[u8], round1: &Vec<(Vec<u8>, Vec<u8>)>) -> (r: Option<(Vec<u8>, Vec<(Vec<u8>, Vec<u8>)>)>)
    requires
        round1_secret_sound(secret@),
    ensures
        part2_opt(r) == dkg_part2_of(secret@, pairs_view(round1@)),
        r matches Some(t) ==> round2_secret_sound(t.0@),
        r matches Some(t) ==> forall|i: int| 0 <= i < t.1@.len() ==> (#[trigger] t.1@[i]).0@.len() == 32,
{
    let map = round1.iter().map(|(i, p)| Some((Identifier::deserialize(i).ok()?, dkg::round1::Package::deserialize(p).ok()?)))
        .collect::<Option<BTreeMap<_, _>>>()?;
    let (next, packages) = dkg::part2(dkg::round1::SecretPackage::deserialize(secret).ok()?, &map).ok()?;
    let out = packages.iter().map(|(i, p)| Some((i.serialize(), p.serialize().ok()?))).collect::<Option<Vec<_>>>()?;
    Some((next.serialize().ok()?, out))
}

/// Relies on frost dkg::part3, given a secret package that part2 made: this
/// participant's finished key package, encoded.
#[verifier::external_body]
pub(crate) fn dkg_part3(secret: &[u8], round1: &Vec<(Vec<u8>, Vec<u8>)>, round2: &Vec<(Vec<u8>, Vec<u8>)>) -> (r: Option<Vec<u8>>)
    requires
        round2_secret_sound(secret@),
    ensures
        bytes_opt(r) == dkg_part3_of(secret@, pairs_view(round1@), pairs_view(round2@)),
{
    let m1 = round1.iter().map(|(i, p)| Some((Identifier::deserialize(i).ok()?, dkg::round1::Package::deserialize(p).ok()?)))
        .collect::<Option<BTreeMap<_, _>>>()?;
    let m2 = round2.iter().map(|(i, p)| Some((Identifier::deserialize(i).ok()?, dkg::round2::Package::deserialize(p).ok()?)))
        .collect::<Option<BTreeMap<_, _>>>()?;
    let (k, _) = dkg::part3(&dkg::round2::SecretPackage::deserialize(secret).ok()?, &m1, &m2).ok()?;
    k.serialize().ok()
}

} // verus!
