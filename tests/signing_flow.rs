use std::collections::{BTreeMap, HashMap};

use frost_secp256k1_tr::keys::{PublicKeyPackage, Tweak};
use spark_frost::client;
use spark_frost::dkg::FrostDKGState;
use spark_frost::entries::{lookup_by_str, put_entry};
use spark_frost::identifier::{identifier_to_hex, user_identifier};
use spark_frost::primitives::KeyShare;
use spark_frost::signing::{
    aggregate_frost, aggregate_with_root, commitments_with_user, frost_key_package_from_proto, frost_nonce,
    sign_frost, sign_job,
    user_signing_share, AggregateFrostRequest, SignFrostRequest, SigningJob,
};
use spark_frost::wire::{Error, Field, KeyPackage, NonceResult, PackageMap, Role, SigningCommitment, SigningNonce, Stage};

fn id_hex(n: u8) -> String {
    let mut s = "0".repeat(62);
    s.push_str(&format!("{:02x}", n));
    s
}

fn run_dkg(ids: &[String], min: u64) -> Vec<KeyPackage> {
    let n = ids.len();
    let mut sessions: Vec<FrostDKGState> = (0..n).map(|_| FrostDKGState::new()).collect();
    let r1: Vec<Vec<u8>> = (0..n)
        .map(|i| sessions[i].dkg_round1(&ids[i], min, n as u64, 1).unwrap().remove(0))
        .collect();
    let r1_in: Vec<PackageMap> = (0..n)
        .map(|i| PackageMap {
            packages: (0..n).filter(|j| *j != i).map(|j| (ids[j].clone(), r1[j].clone())).collect(),
        })
        .collect();
    let r2: Vec<PackageMap> = (0..n)
        .map(|i| sessions[i].dkg_round2(&vec![r1_in[i].clone()]).unwrap().remove(0))
        .collect();
    (0..n)
        .map(|i| {
            let r2_in = PackageMap {
                packages: (0..n)
                    .filter(|j| *j != i)
                    .map(|j| {
                        let p = r2[j].packages.iter().find(|(id, _)| *id == ids[i]).unwrap();
                        (ids[j].clone(), p.1.clone())
                    })
                    .collect(),
            };
            sessions[i].dkg_round3(&vec![r1_in[i].clone()], &vec![r2_in]).unwrap().remove(0)
        })
        .collect()
}

fn nonce_for(kp: &KeyPackage) -> NonceResult {
    frost_nonce(&vec![kp.clone()]).unwrap().remove(0)
}

fn copy_commitment(c: &SigningCommitment) -> SigningCommitment {
    SigningCommitment { hiding: c.hiding.clone(), binding: c.binding.clone() }
}

fn job(kp: &KeyPackage, nonce: SigningNonce, ops: &[(String, SigningCommitment)], user: &SigningCommitment, msg: &[u8]) -> SigningJob {
    SigningJob {
        job_id: format!("job-{}", kp.identifier),
        message: msg.to_vec(),
        key_package: Some(kp.clone()),
        nonce: Some(nonce),
        user_commitments: Some(copy_commitment(user)),
        verifying_key: kp.public_key.clone(),
        commitments: ops.iter().map(|(k, c)| (k.clone(), copy_commitment(c))).collect(),
    }
}

struct Signed {
    request: AggregateFrostRequest,
}

/// Two operators and the holder of the user identifier run a DKG, commit,
/// and sign `msg`, each applying the tweak by `roots[i]`.
fn sign_all(msg: &[u8], roots: [&[u8]; 3]) -> Signed {
    let user_hex = identifier_to_hex(&user_identifier().unwrap());
    let ids = vec![id_hex(1), id_hex(2), user_hex];
    let kps = run_dkg(&ids, 2);
    let nonces: Vec<NonceResult> = kps.iter().map(nonce_for).collect();
    let ops: Vec<(String, SigningCommitment)> =
        (0..2).map(|i| (ids[i].clone(), copy_commitment(&nonces[i].commitment))).collect();
    let user_commitment = copy_commitment(&nonces[2].commitment);
    let mut shares = Vec::new();
    for (i, n) in nonces.into_iter().enumerate() {
        let j = job(&kps[i], n.nonce, &ops, &user_commitment, msg);
        shares.push(sign_job(&j, Role::Operator, roots[i]).unwrap());
    }
    for s in &shares {
        assert_eq!(s.len(), 32);
    }
    Signed {
        request: AggregateFrostRequest {
            message: msg.to_vec(),
            commitments: ops,
            user_commitments: Some(user_commitment),
            verifying_key: kps[0].public_key.clone(),
            signature_shares: (0..2).map(|i| (ids[i].clone(), shares[i].clone())).collect(),
            public_shares: (0..2).map(|i| (ids[i].clone(), kps[i].public_shares[0].1.clone())).collect(),
            user_public_key: kps[2].public_shares[0].1.clone(),
            user_signature_share: shares[2].clone(),
        },
    }
}

#[test]
fn three_signers_produce_a_verifying_signature() {
    let msg = b"test-message";
    let signed = sign_all(msg, [&[], &[], &[]]);
    let sig = aggregate_frost(&signed.request).unwrap();
    assert_eq!(sig.len(), 64);
    let vk = frost_secp256k1_tr::VerifyingKey::deserialize(&signed.request.verifying_key).unwrap();
    let tweaked = PublicKeyPackage::new(BTreeMap::new(), vk).tweak(Some(Vec::<u8>::new()));
    let signature = frost_secp256k1_tr::Signature::deserialize(&sig).unwrap();
    assert!(tweaked.verifying_key().verify(msg, &signature).is_ok());
    assert!(tweaked.verifying_key().verify(b"other-message", &signature).is_err());
}

#[test]
fn aggregation_with_another_merkle_root_fails() {
    let signed = sign_all(b"test-message", [&[], &[], &[]]);
    let root = [7u8; 32];
    assert_eq!(aggregate_with_root(&signed.request, &root), Err(Error::Crypto(Stage::Aggregate)));
}

#[test]
fn a_signer_with_another_merkle_root_makes_aggregation_fail() {
    let root = [7u8; 32];
    let signed = sign_all(b"test-message", [&[], &root, &[]]);
    assert_eq!(aggregate_frost(&signed.request), Err(Error::Crypto(Stage::Aggregate)));
}

#[test]
fn nonces_are_fresh_each_time() {
    let kps = run_dkg(&[id_hex(1), id_hex(2)], 2);
    let a = nonce_for(&kps[0]);
    let b = nonce_for(&kps[0]);
    assert_eq!(a.nonce.hiding.len(), 32);
    assert_eq!(a.nonce.binding.len(), 32);
    assert_eq!(a.commitment.hiding.len(), 33);
    assert_eq!(a.commitment.binding.len(), 33);
    assert_ne!(a.nonce.hiding, b.nonce.hiding);
    assert_ne!(a.nonce.binding, b.nonce.binding);
    assert_ne!(a.commitment.hiding, b.commitment.hiding);
}

#[test]
fn short_secret_share_is_refused() {
    let mut kp = run_dkg(&[id_hex(1), id_hex(2)], 2).remove(0);
    kp.secret_share.pop();
    assert_eq!(kp.secret_share.len(), 31);
    assert_eq!(frost_nonce(&vec![kp]).unwrap_err(), Error::InvalidLength(Field::SecretShare));
}

#[test]
fn short_public_share_is_refused() {
    let mut kp = run_dkg(&[id_hex(1), id_hex(2)], 2).remove(0);
    kp.public_shares[0].1.pop();
    assert_eq!(kp.public_shares[0].1.len(), 32);
    assert_eq!(frost_nonce(&vec![kp]).unwrap_err(), Error::InvalidLength(Field::PublicShare));
}

#[test]
fn short_group_key_is_refused() {
    let mut kp = run_dkg(&[id_hex(1), id_hex(2)], 2).remove(0);
    kp.public_key.pop();
    assert_eq!(frost_nonce(&vec![kp]).unwrap_err(), Error::InvalidLength(Field::VerifyingKey));
}

#[test]
fn missing_own_public_share_is_refused() {
    let mut kp = run_dkg(&[id_hex(1), id_hex(2)], 2).remove(0);
    kp.public_shares[0].0 = id_hex(9);
    assert_eq!(frost_nonce(&vec![kp]).unwrap_err(), Error::OwnShareMissing);
}

#[test]
fn point_not_on_curve_is_a_primitive_failure() {
    let mut kp = run_dkg(&[id_hex(1), id_hex(2)], 2).remove(0);
    kp.public_shares[0].1 = vec![0x05; 33];
    assert_eq!(frost_nonce(&vec![kp]).unwrap_err(), Error::Malformed(Field::PublicShare));
}

fn sample_job() -> SigningJob {
    let kps = run_dkg(&[id_hex(1), id_hex(2)], 2);
    let n = nonce_for(&kps[0]);
    let other = nonce_for(&kps[1]);
    let ops = vec![(id_hex(1), copy_commitment(&n.commitment)), (id_hex(2), copy_commitment(&other.commitment))];
    job(&kps[0], n.nonce, &ops, &other.commitment, b"m")
}

#[test]
fn signing_job_missing_fields() {
    let mut j = sample_job();
    j.nonce = None;
    assert_eq!(sign_job(&j, Role::Operator, &[]), Err(Error::Missing(Field::Nonce)));
    let mut j = sample_job();
    j.user_commitments = None;
    assert_eq!(sign_job(&j, Role::Operator, &[]), Err(Error::Missing(Field::UserCommitment)));
    let mut j = sample_job();
    j.key_package = None;
    assert_eq!(sign_job(&j, Role::Operator, &[]), Err(Error::Missing(Field::KeyPackage)));
}

#[test]
fn signing_job_malformed_fields() {
    let mut j = sample_job();
    j.commitments[0].1.hiding.push(0);
    assert_eq!(sign_job(&j, Role::Operator, &[]), Err(Error::InvalidLength(Field::Commitment)));
    let mut j = sample_job();
    j.commitments[0].0 = "not-hex".to_string();
    assert_eq!(sign_job(&j, Role::Operator, &[]), Err(Error::InvalidIdentifier));
    let mut j = sample_job();
    j.user_commitments.as_mut().unwrap().binding.pop();
    assert_eq!(sign_job(&j, Role::Operator, &[]), Err(Error::InvalidLength(Field::UserCommitment)));
    let mut j = sample_job();
    j.nonce.as_mut().unwrap().hiding.pop();
    assert_eq!(sign_job(&j, Role::Operator, &[]), Err(Error::InvalidLength(Field::Nonce)));
    let mut j = sample_job();
    j.verifying_key.pop();
    assert_eq!(sign_job(&j, Role::Operator, &[]), Err(Error::InvalidLength(Field::VerifyingKey)));
}

#[test]
fn signing_request_with_unknown_role_is_refused() {
    let req = SignFrostRequest { signing_jobs: vec![sample_job()], role: 2 };
    assert_eq!(sign_frost(&req).unwrap_err(), Error::InvalidRole);
}

#[test]
fn signing_request_keys_shares_by_job() {
    let j = sample_job();
    let id = j.job_id.clone();
    let req = SignFrostRequest { signing_jobs: vec![j], role: 0 };
    let results = sign_frost(&req).unwrap();
    assert_eq!(results.len(), 1);
    assert_eq!(results[0].job_id, id);
    assert_eq!(results[0].signature_share.len(), 32);
}

#[test]
fn aggregation_refuses_malformed_fields() {
    let signed = sign_all(b"test-message", [&[], &[], &[]]);
    let base = signed.request;
    let mut r = base.clone();
    r.user_signature_share.pop();
    assert_eq!(aggregate_frost(&r), Err(Error::InvalidLength(Field::SignatureShare)));
    let mut r = base.clone();
    r.user_public_key.pop();
    assert_eq!(aggregate_frost(&r), Err(Error::InvalidLength(Field::UserPublicKey)));
    let mut r = base.clone();
    r.public_shares[0].1.pop();
    assert_eq!(aggregate_frost(&r), Err(Error::InvalidLength(Field::PublicShare)));
    let mut r = base.clone();
    r.signature_shares[1].1.push(0);
    assert_eq!(aggregate_frost(&r), Err(Error::InvalidLength(Field::SignatureShare)));
    let mut r = base.clone();
    r.verifying_key.pop();
    assert_eq!(aggregate_frost(&r), Err(Error::InvalidLength(Field::VerifyingKey)));
    let mut r = base.clone();
    r.user_commitments = None;
    assert_eq!(aggregate_frost(&r), Err(Error::Missing(Field::UserCommitment)));
    let mut r = base.clone();
    r.user_signature_share = vec![0xff; 32];
    assert_eq!(aggregate_frost(&r), Err(Error::Malformed(Field::SignatureShare)));
    let mut r = base.clone();
    r.user_public_key = vec![0x05; 33];
    assert_eq!(aggregate_frost(&r), Err(Error::Malformed(Field::UserPublicKey)));
    let mut r = base.clone();
    r.user_signature_share = r.signature_shares[0].1.clone();
    assert_eq!(aggregate_frost(&r), Err(Error::Crypto(Stage::Aggregate)));
}

#[test]
fn own_commitment_joins_under_the_user_identifier() {
    let user = user_identifier().unwrap();
    let kps = run_dkg(&[id_hex(1), id_hex(2)], 2);
    let c = nonce_for(&kps[0]).commitment;
    let peer = nonce_for(&kps[1]).commitment;
    let (ch, cb) = (c.hiding.clone(), c.binding.clone());
    let peers = vec![(id_hex(1), copy_commitment(&peer)), (identifier_to_hex(&user), copy_commitment(&peer))];
    let (entries, u) = commitments_with_user(&peers, &Some(c)).unwrap();
    assert_eq!(u, user);
    assert_eq!(entries.len(), 3);
    assert_eq!(entries[2], (user.clone(), (ch, cb)));
    assert_eq!(entries[1].0, user);
    assert_eq!(commitments_with_user(&peers, &None).unwrap_err(), Error::Missing(Field::UserCommitment));
}

#[test]
fn user_share_takes_the_tweaked_group_key() {
    let even = KeyShare {
        identifier: vec![1; 32],
        signing_share: vec![2; 32],
        verifying_share: vec![3; 33],
        verifying_key: vec![4; 33],
        min_signers: 1,
    };
    let tweaked = KeyShare {
        identifier: vec![5; 32],
        signing_share: vec![6; 32],
        verifying_share: vec![7; 33],
        verifying_key: vec![8; 33],
        min_signers: 2,
    };
    let k = user_signing_share(&even, &tweaked);
    assert_eq!(k.identifier, vec![1; 32]);
    assert_eq!(k.signing_share, vec![2; 32]);
    assert_eq!(k.verifying_share, vec![3; 33]);
    assert_eq!(k.verifying_key, vec![8; 33]);
    assert_eq!(k.min_signers, 2);
}

#[test]
fn later_entries_replace_earlier_ones() {
    let entries = vec![("a".to_string(), 1u8), ("b".to_string(), 2u8), ("a".to_string(), 3u8)];
    assert_eq!(lookup_by_str(&entries, &"a".to_string()), Some(&3u8));
    assert_eq!(lookup_by_str(&entries, &"b".to_string()), Some(&2u8));
    assert_eq!(lookup_by_str(&entries, &"c".to_string()), None);
    let mut v: Vec<(Vec<u8>, u8)> = vec![(vec![1], 1)];
    put_entry(&mut v, vec![1], 9);
    assert_eq!(v, vec![(vec![1], 1), (vec![1], 9)]);
}

fn user_key_package() -> (client::KeyPackage, Vec<(String, SigningCommitment)>) {
    let user_hex = identifier_to_hex(&user_identifier().unwrap());
    let kps = run_dkg(&[id_hex(1), id_hex(2), user_hex], 2);
    let ops = (0..2).map(|i| (kps[i].identifier.clone(), copy_commitment(&nonce_for(&kps[i]).commitment))).collect();
    let ck = client::KeyPackage {
        secret_key: kps[2].secret_share.clone(),
        public_key: kps[2].public_shares[0].1.clone(),
        verifying_key: kps[2].public_key.clone(),
    };
    (ck, ops)
}

#[test]
fn client_key_package_is_the_user_share() {
    let (ck, _) = user_key_package();
    let w = client::key_package_to_wire(&ck).unwrap();
    let user_hex = identifier_to_hex(&user_identifier().unwrap());
    assert_eq!(w.identifier, user_hex);
    assert_eq!(w.public_shares, vec![(user_hex, ck.public_key.clone())]);
    assert_eq!(w.secret_share, ck.secret_key);
    assert_eq!(w.public_key, ck.verifying_key);
    assert_eq!(w.min_signers, 1);
}

#[test]
fn client_nonce_and_user_signature_share() {
    let (ck, ops) = user_key_package();
    let n1 = client::frost_nonce(ck.clone()).unwrap();
    let n2 = client::frost_nonce(ck.clone()).unwrap();
    assert_ne!(n1.commitment.hiding, n2.commitment.hiding);
    let peers: HashMap<String, SigningCommitment> = ops.into_iter().collect();
    let share = client::sign_frost(b"test-message".to_vec(), ck, n1.nonce, n1.commitment, peers).unwrap();
    assert_eq!(share.len(), 32);
}

#[test]
fn client_refuses_malformed_key_shares() {
    let (ck, ops) = user_key_package();
    let mut short = ck.clone();
    short.secret_key.pop();
    assert_eq!(client::frost_nonce(short).unwrap_err(), Error::InvalidLength(Field::SecretShare));
    let mut short = ck.clone();
    short.public_key.pop();
    assert_eq!(client::frost_nonce(short).unwrap_err(), Error::InvalidLength(Field::PublicShare));
    let n = client::frost_nonce(ck.clone()).unwrap();
    let mut peers: HashMap<String, SigningCommitment> = ops.into_iter().collect();
    peers.insert("bad".to_string(), copy_commitment(&n.commitment));
    assert!(client::sign_frost(b"m".to_vec(), ck, n.nonce, n.commitment, peers).is_err());
}

#[test]
fn client_aggregation_refuses_a_short_share() {
    let signed = sign_all(b"test-message", [&[], &[], &[]]);
    let r = signed.request;
    let commitments: HashMap<String, SigningCommitment> =
        r.commitments.iter().map(|(k, c)| (k.clone(), copy_commitment(c))).collect();
    let shares: HashMap<String, Vec<u8>> = r.signature_shares.iter().cloned().collect();
    let publics: HashMap<String, Vec<u8>> = r.public_shares.iter().cloned().collect();
    let own = r.user_commitments.as_ref().map(copy_commitment).unwrap();
    let sig = client::aggregate_frost(
        r.message.clone(),
        commitments.clone(),
        copy_commitment(&own),
        shares.clone(),
        r.user_signature_share.clone(),
        publics.clone(),
        r.user_public_key.clone(),
        r.verifying_key.clone(),
    )
    .unwrap();
    assert_eq!(sig.len(), 64);
    let mut short = r.user_signature_share.clone();
    short.pop();
    let err = client::aggregate_frost(
        r.message.clone(),
        commitments,
        own,
        shares,
        short,
        publics,
        r.user_public_key.clone(),
        r.verifying_key.clone(),
    );
    assert_eq!(err, Err(Error::InvalidLength(Field::SignatureShare)));
}

#[test]
fn key_package_policy_by_role() {
    let user = user_identifier().unwrap();
    let kps = run_dkg(&[id_hex(1), id_hex(2), identifier_to_hex(&user)], 2);
    let kp = &kps[0];
    let (op, _) = frost_key_package_from_proto(kp, None, &kp.public_key, Role::Operator, &[]).unwrap();
    assert_eq!(op.identifier[31], 1);
    assert_eq!(op.signing_share, kp.secret_share);
    assert_eq!(op.verifying_share, kp.public_shares[0].1);
    assert_eq!(op.verifying_key, kp.public_key);
    assert_eq!(op.min_signers, 2);
    let (us, _) = frost_key_package_from_proto(kp, Some(user.clone()), &kp.public_key, Role::User, &[]).unwrap();
    assert_eq!(us.identifier, user);
    assert_ne!(us.verifying_key, kp.public_key);
    assert_eq!(us.verifying_key.len(), 33);
    assert_eq!(us.min_signers, 2);
    let vk = frost_secp256k1_tr::VerifyingKey::deserialize(&kp.public_key).unwrap();
    let tweaked = PublicKeyPackage::new(BTreeMap::new(), vk).tweak(Some(Vec::<u8>::new()));
    assert_eq!(us.verifying_key, tweaked.verifying_key().serialize().unwrap());
}

#[test]
fn malformed_scalars_are_refused_when_read() {
    let mut kp = run_dkg(&[id_hex(1), id_hex(2)], 2).remove(0);
    kp.secret_share = vec![0xff; 32];
    assert_eq!(frost_nonce(&vec![kp]).unwrap_err(), Error::Malformed(Field::SecretShare));
    let mut j = sample_job();
    j.nonce.as_mut().unwrap().binding = vec![0xff; 32];
    assert_eq!(sign_job(&j, Role::Operator, &[]), Err(Error::Malformed(Field::Nonce)));
    let mut j = sample_job();
    j.commitments[1].1.binding = vec![0x05; 33];
    assert_eq!(sign_job(&j, Role::Operator, &[]), Err(Error::Malformed(Field::Commitment)));
    let mut j = sample_job();
    j.verifying_key = vec![0x05; 33];
    assert_eq!(sign_job(&j, Role::Operator, &[]), Err(Error::Malformed(Field::VerifyingKey)));
}

#[test]
fn signing_is_deterministic_for_a_job() {
    let kps = run_dkg(&[id_hex(1), id_hex(2)], 2);
    let n = nonce_for(&kps[0]);
    let other = nonce_for(&kps[1]);
    let ops = vec![(id_hex(1), copy_commitment(&n.commitment)), (id_hex(2), copy_commitment(&other.commitment))];
    let nonce = || SigningNonce { hiding: n.nonce.hiding.clone(), binding: n.nonce.binding.clone() };
    let a = sign_job(&job(&kps[0], nonce(), &ops, &other.commitment, b"m"), Role::Operator, &[]).unwrap();
    let b = sign_job(&job(&kps[0], nonce(), &ops, &other.commitment, b"m"), Role::Operator, &[]).unwrap();
    assert_eq!(a, b);
    let c = sign_job(&job(&kps[0], nonce(), &ops, &other.commitment, b"n"), Role::Operator, &[]).unwrap();
    assert_ne!(a, c);
}
