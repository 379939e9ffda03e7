use vstd::prelude::*;
use std::collections::HashMap;
use crate::entries::entries_map;
use crate::hex_codec::{hex_of, lemma_hex_round_trip};
use crate::identifier::{identifier_accepted, identifier_to_hex, user_identifier, user_identifier_spec};
use crate::signing::{
    self, aggregate_for, aggregate_verifies, commitment_entry_fault, commitment_fault,
    commitment_map_well_formed, encoding_fault, is_aggregation_failure, is_signing_failure,
    lemma_commitment_map_refusal, lemma_sized_entries_refusal, nonce_fault, share_for,
    sized_entries_well_formed, value_entry_fault, AggregateFrostRequest, SignFrostRequest, SigningJob,
};
use crate::wire::{self, Error, Field, NonceResult, Role, SigningCommitment, SigningNonce, Stage};

verus! {

/// The user's key share as a client holds it: its secret share, its public
/// share, and the group verifying key of user and operators together.
#[derive(Debug, Clone)]
pub struct KeyPackage {
    pub secret_key: Vec<u8>,
    pub public_key: Vec<u8>,
    pub verifying_key: Vec<u8>,
}

/// Relies on HashMap::into_iter: every key-value pair of the map once.
#[verifier::external_body]
fn entries_of<V>(m: HashMap<String, V>) -> (r: Vec<(String, V)>)
    ensures
        r@.len() == m@.len(),
        forall|i: int| 0 <= i < r@.len() ==> m@.contains_key(#[trigger] r@[i].0) && m@[r@[i].0] == r@[i].1,
        forall|k: String| #[trigger] m@.contains_key(k) ==> exists|i: int| 0 <= i < r@.len() && r@[i].0 == k,
{
    m.into_iter().collect()
}

/// Relies on uuid's Uuid::new_v4, written in its hyphenated form.
#[verifier::external_body]
fn new_job_id() -> (r: String)
{
    uuid::Uuid::new_v4().to_string()
}

/// The wire key package of the user's share: under the user identifier, its
/// own public share the only one listed, threshold one.
pub open spec fn is_user_wire_package(w: wire::KeyPackage, k: KeyPackage, user: Seq<u8>) -> bool {
    &&& w.identifier@ == hex_of(user)
    &&& w.secret_share@ == k.secret_key@
    &&& w.public_shares@.len() == 1
    &&& w.public_shares@[0].0@ == hex_of(user)
    &&& w.public_shares@[0].1@ == k.public_key@
    &&& w.public_key@ == k.verifying_key@
    &&& w.min_signers == 1
}

/// `w` is the wire form of the user's key share under the user identifier.
pub open spec fn is_user_wire_form(w: wire::KeyPackage, k: KeyPackage) -> bool {
    exists|user: Seq<u8>| user_identifier_spec() == Some(user) && user.len() == 32
        && #[trigger] is_user_wire_package(w, k, user)
}

/// Write the user's key share as a wire key package.
pub fn key_package_to_wire(key_package: &KeyPackage) -> (r: Result<wire::KeyPackage, Error>)
    ensures
        match r {
            Ok(w) => is_user_wire_form(w, *key_package),
            Err(e) => user_identifier_spec() is None && e == Error::Crypto(Stage::UserIdentifier),
        },
{
    let user = match user_identifier() {
        Ok(u) => u,
        Err(e) => return Err(e),
    };
    let mut public_shares: Vec<(String, Vec<u8>)> = Vec::new();
    public_shares.push((identifier_to_hex(&user), key_package.public_key.clone()));
    let w = wire::KeyPackage {
        identifier: identifier_to_hex(&user),
        secret_share: key_package.secret_key.clone(),
        public_shares,
        public_key: key_package.verifying_key.clone(),
        min_signers: 1,
    };
    assert(is_user_wire_package(w, *key_package, user@));
    Ok(w)
}

/// Why the user's key share cannot give nonces, in this order: no user
/// identifier, then its group key, secret share and public share, then an
/// identifier the curve refuses.
pub open spec fn client_nonce_refusal(k: KeyPackage) -> Option<Error> {
    match user_identifier_spec() {
        None => Some(Error::Crypto(Stage::UserIdentifier)),
        Some(user) => if encoding_fault(k.verifying_key@, Field::VerifyingKey) is Some {
            encoding_fault(k.verifying_key@, Field::VerifyingKey)
        } else if encoding_fault(k.secret_key@, Field::SecretShare) is Some {
            encoding_fault(k.secret_key@, Field::SecretShare)
        } else if encoding_fault(k.public_key@, Field::PublicShare) is Some {
            encoding_fault(k.public_key@, Field::PublicShare)
        } else if !identifier_accepted(user) {
            Some(Error::InvalidIdentifier)
        } else {
            None
        },
    }
}

/// The wire form of the user's key share reads back as the user's share:
/// its own public share is found, and its identifier parses exactly when
/// the curve accepts the user identifier.
proof fn lemma_user_wire_package(w: wire::KeyPackage, k: KeyPackage, user: Seq<u8>)
    requires
        user_identifier_spec() == Some(user),
        user.len() == 32,
        is_user_wire_package(w, k, user),
    ensures
        signing::nonce_refusal(w) == client_nonce_refusal(k),
        entries_map(w.public_shares@).contains_key(w.identifier@),
        entries_map(w.public_shares@)[w.identifier@]@ == k.public_key@,
{
    let m = w.public_shares@;
    assert(m.drop_last() =~= Seq::<(String, Vec<u8>)>::empty());
    assert(entries_map(m) == entries_map(m.drop_last()).insert(m.last().0@, m.last().1));
    lemma_hex_round_trip(user);
    assert(m.last().0@ == w.identifier@);
    assert(entries_map(m.drop_last()) == Map::<Seq<char>, Vec<u8>>::empty());
}

/// Generate a fresh nonce pair and commitment for the user's key share.
pub fn frost_nonce(key_package: KeyPackage) -> (r: Result<NonceResult, Error>)
    ensures
        match r {
            Ok(n) => client_nonce_refusal(key_package) is None && signing::nonce_result_sized(n),
            Err(e) => match client_nonce_refusal(key_package) {
                Some(refusal) => e == refusal,
                None => e == Error::Crypto(Stage::KeyPackage) || e == Error::Crypto(Stage::Commit),
            },
        },
{
    let w = match key_package_to_wire(&key_package) {
        Ok(w) => w,
        Err(e) => return Err(e),
    };
    let ghost user = choose|user: Seq<u8>| user_identifier_spec() == Some(user) && user.len() == 32
        && #[trigger] is_user_wire_package(w, key_package, user);
    proof {
        lemma_user_wire_package(w, key_package, user);
    }
    let mut packages: Vec<wire::KeyPackage> = Vec::new();
    packages.push(w);
    assert(packages@[0] == w);
    let mut results = match signing::frost_nonce(&packages) {
        Ok(v) => v,
        Err(e) => {
            assert(signing::nonce_failed_at(packages@, 0, e));
            return Err(e);
        },
    };
    assert(results@.len() == 1);
    Ok(results.remove(0))
}

/// Every peer commitment is keyed by an identifier and well formed.
pub open spec fn peer_commitments_well_formed(m: Map<String, SigningCommitment>) -> bool {
    forall|k: String| #[trigger] m.contains_key(k) ==> commitment_entry_fault((k, m[k])) is None
}

/// Every peer value is keyed by an identifier and well formed.
pub open spec fn peer_values_well_formed(m: Map<String, Vec<u8>>, field: Field) -> bool {
    forall|k: String| #[trigger] m.contains_key(k) ==> value_entry_fault((k, m[k]), field) is None
}

/// `e` is the fault of some peer commitment.
pub open spec fn peer_commitment_fault(m: Map<String, SigningCommitment>, e: Error) -> bool {
    exists|k: String| #[trigger] m.contains_key(k) && commitment_entry_fault((k, m[k])) == Some(e)
}

/// `e` is the fault of some peer value.
pub open spec fn peer_value_fault(m: Map<String, Vec<u8>>, field: Field, e: Error) -> bool {
    exists|k: String| #[trigger] m.contains_key(k) && value_entry_fault((k, m[k]), field) == Some(e)
}

/// `r` lists the entries of `m`, each once.
pub open spec fn lists<V>(r: Seq<(String, V)>, m: Map<String, V>) -> bool {
    &&& forall|i: int| 0 <= i < r.len() ==> m.contains_key(#[trigger] r[i].0) && m[r[i].0] == r[i].1
    &&& forall|k: String| #[trigger] m.contains_key(k) ==> exists|i: int| 0 <= i < r.len() && r[i].0 == k
}

/// A listing of a commitment map is well formed exactly when the map is,
/// and its first fault is the fault of some entry of the map.
proof fn lemma_commitment_entries_of(m: Map<String, SigningCommitment>, r: Seq<(String, SigningCommitment)>)
    requires
        lists(r, m),
    ensures
        commitment_map_well_formed(r) <==> peer_commitments_well_formed(m),
        signing::commitment_map_refusal(r) is None <==> peer_commitments_well_formed(m),
        signing::commitment_map_refusal(r) matches Some(e) ==> peer_commitment_fault(m, e),
{
    lemma_commitment_map_refusal(r);
    if peer_commitments_well_formed(m) {
        assert forall|j: int| 0 <= j < r.len() implies commitment_entry_fault(#[trigger] r[j]) is None by {
            assert(m.contains_key(r[j].0));
            assert(r[j] == (r[j].0, m[r[j].0]));
        }
    }
    if commitment_map_well_formed(r) {
        assert forall|k: String| #[trigger] m.contains_key(k) implies commitment_entry_fault((k, m[k])) is None by {
            let i = choose|i: int| 0 <= i < r.len() && r[i].0 == k;
            assert(r[i] == (k, m[k]));
        }
    }
    if signing::commitment_map_refusal(r) is Some {
        let e = signing::commitment_map_refusal(r)->0;
        let j = choose|j: int| 0 <= j < r.len() && commitment_entry_fault(#[trigger] r[j]) == Some(e);
        assert(m.contains_key(r[j].0));
        assert(r[j] == (r[j].0, m[r[j].0]));
    }
}

/// A listing of a value map is well formed exactly when the map is, and
/// its first fault is the fault of some entry of the map.
proof fn lemma_value_entries_of(m: Map<String, Vec<u8>>, r: Seq<(String, Vec<u8>)>, field: Field)
    requires
        lists(r, m),
    ensures
        sized_entries_well_formed(r, field) <==> peer_values_well_formed(m, field),
        signing::sized_entries_refusal(r, field) is None <==> peer_values_well_formed(m, field),
        signing::sized_entries_refusal(r, field) matches Some(e) ==> peer_value_fault(m, field, e),
{
    lemma_sized_entries_refusal(r, field);
    if peer_values_well_formed(m, field) {
        assert forall|j: int| 0 <= j < r.len() implies value_entry_fault(#[trigger] r[j], field) is None by {
            assert(m.contains_key(r[j].0));
            assert(r[j] == (r[j].0, m[r[j].0]));
        }
    }
    if sized_entries_well_formed(r, field) {
        assert forall|k: String| #[trigger] m.contains_key(k) implies value_entry_fault((k, m[k]), field) is None by {
            let i = choose|i: int| 0 <= i < r.len() && r[i].0 == k;
            assert(r[i] == (k, m[k]));
        }
    }
    if signing::sized_entries_refusal(r, field) is Some {
        let e = signing::sized_entries_refusal(r, field)->0;
        let j = choose|j: int| 0 <= j < r.len() && value_entry_fault(#[trigger] r[j], field) == Some(e);
        assert(m.contains_key(r[j].0));
        assert(r[j] == (r[j].0, m[r[j].0]));
    }
}

/// Why a user signing call is refused once the user identifier is known and
/// the peers' commitments are well formed, in this order: the own
/// commitment, the nonce, then the key share as in `client_nonce_refusal`.
pub open spec fn client_sign_refusal(k: KeyPackage, nonce: SigningNonce, own: SigningCommitment) -> Option<Error> {
    if user_identifier_spec() is None {
        Some(Error::Crypto(Stage::UserIdentifier))
    } else if commitment_fault(own, Field::UserCommitment) is Some {
        commitment_fault(own, Field::UserCommitment)
    } else if nonce_fault(nonce) is Some {
        nonce_fault(nonce)
    } else {
        client_nonce_refusal(k)
    }
}

/// `job` is the signing job that a user signing call makes: the message,
/// the wire form of the user's share, the nonce and own commitment, and a
/// listing of the peers' commitments.
pub open spec fn client_job(job: SigningJob, msg: Seq<u8>, k: KeyPackage, nonce: SigningNonce, own: SigningCommitment, peers: Map<String, SigningCommitment>) -> bool {
    &&& job.message@ == msg
    &&& job.key_package matches Some(w) && is_user_wire_form(w, k)
    &&& job.nonce == Some(nonce)
    &&& job.user_commitments == Some(own)
    &&& job.verifying_key@ == k.verifying_key@
    &&& lists(job.commitments@, peers)
}

/// Produce the user's 32-byte signature share of `msg`, signing as the user
/// against the operators' commitments. The nonce is consumed.
pub fn sign_frost(
    msg: Vec<u8>,
    key_package: KeyPackage,
    nonce: SigningNonce,
    self_commitment: SigningCommitment,
    statechain_commitments: HashMap<String, SigningCommitment>,
) -> (r: Result<Vec<u8>, Error>)
    ensures
        match r {
            Ok(share) => {
                &&& peer_commitments_well_formed(statechain_commitments@)
                &&& client_sign_refusal(key_package, nonce, self_commitment) is None
                &&& share@.len() == 32
                &&& exists|job: SigningJob| #[trigger] client_job(job, msg@, key_package, nonce, self_commitment, statechain_commitments@)
                    && share_for(job, Role::User, seq![]) == Some(share@)
            },
            Err(e) => if user_identifier_spec() is None {
                e == Error::Crypto(Stage::UserIdentifier)
            } else if !peer_commitments_well_formed(statechain_commitments@) {
                peer_commitment_fault(statechain_commitments@, e)
            } else {
                match client_sign_refusal(key_package, nonce, self_commitment) {
                    Some(refusal) => e == refusal,
                    None => is_signing_failure(e) && exists|job: SigningJob| #[trigger] client_job(job, msg@, key_package, nonce, self_commitment, statechain_commitments@)
                        && share_for(job, Role::User, seq![]) is None,
                }
            },
        },
{
    let ghost msg_view = msg@;
    let ghost peers = statechain_commitments@;
    let w = match key_package_to_wire(&key_package) {
        Ok(w) => w,
        Err(e) => return Err(e),
    };
    let ghost user = choose|user: Seq<u8>| user_identifier_spec() == Some(user) && user.len() == 32
        && #[trigger] is_user_wire_package(w, key_package, user);
    let commitments = entries_of(statechain_commitments);
    let job = SigningJob {
        job_id: new_job_id(),
        message: msg,
        key_package: Some(w),
        nonce: Some(nonce),
        user_commitments: Some(self_commitment),
        verifying_key: key_package.verifying_key.clone(),
        commitments,
    };
    let ghost the_job = job;
    proof {
        lemma_user_wire_package(w, key_package, user);
        lemma_commitment_entries_of(peers, job.commitments@);
        assert(client_job(job, msg_view, key_package, nonce, self_commitment, peers));
        if peer_commitments_well_formed(peers) {
            assert(signing::sign_refusal(job) == client_sign_refusal(key_package, nonce, self_commitment));
        } else {
            assert(signing::sign_refusal(job) == signing::commitment_map_refusal(job.commitments@));
        }
    }
    let mut jobs: Vec<SigningJob> = Vec::new();
    jobs.push(job);
    let req = SignFrostRequest { signing_jobs: jobs, role: 1 };
    assert(req.signing_jobs@[0] == job);
    let mut results = match signing::sign_frost(&req) {
        Ok(v) => v,
        Err(e) => {
            assert(signing::sign_failed_at(req.signing_jobs@, Role::User, 0, e));
            assert(client_job(the_job, msg_view, key_package, nonce, self_commitment, peers));
            return Err(e);
        },
    };
    assert(results@[0].signature_share@.len() == 32);
    assert(client_job(the_job, msg_view, key_package, nonce, self_commitment, peers));
    Ok(results.remove(0).signature_share)
}

/// Everything an aggregation checks before combining, in this order once
/// the peers' commitments are well formed: the user identifier, the own
/// commitment, the group key, the signature shares (peers', then the
/// user's), the public shares (peers', then the user's).
pub open spec fn client_aggregate_valid(
    own_commitment: SigningCommitment,
    peers: Map<String, SigningCommitment>,
    signatures: Map<String, Vec<u8>>,
    own_signature: Seq<u8>,
    public_keys: Map<String, Vec<u8>>,
    own_public_key: Seq<u8>,
    verifying_key: Seq<u8>,
) -> bool {
    &&& peer_commitments_well_formed(peers)
    &&& user_identifier_spec() is Some
    &&& commitment_fault(own_commitment, Field::UserCommitment) is None
    &&& encoding_fault(verifying_key, Field::VerifyingKey) is None
    &&& peer_values_well_formed(signatures, Field::SignatureShare)
    &&& encoding_fault(own_signature, Field::SignatureShare) is None
    &&& peer_values_well_formed(public_keys, Field::PublicShare)
    &&& encoding_fault(own_public_key, Field::UserPublicKey) is None
}

/// The error an aggregation gives when a check fails: the first failing
/// check in the order of `client_aggregate_valid`, where a failing map
/// gives the fault of one of its entries.
pub open spec fn client_aggregate_refused_with(
    e: Error,
    own_commitment: SigningCommitment,
    peers: Map<String, SigningCommitment>,
    signatures: Map<String, Vec<u8>>,
    own_signature: Seq<u8>,
    public_keys: Map<String, Vec<u8>>,
    own_public_key: Seq<u8>,
    verifying_key: Seq<u8>,
) -> bool {
    if !peer_commitments_well_formed(peers) {
        peer_commitment_fault(peers, e)
    } else if user_identifier_spec() is None {
        e == Error::Crypto(Stage::UserIdentifier)
    } else if commitment_fault(own_commitment, Field::UserCommitment) is Some {
        commitment_fault(own_commitment, Field::UserCommitment) == Some(e)
    } else if encoding_fault(verifying_key, Field::VerifyingKey) is Some {
        encoding_fault(verifying_key, Field::VerifyingKey) == Some(e)
    } else if !peer_values_well_formed(signatures, Field::SignatureShare) {
        peer_value_fault(signatures, Field::SignatureShare, e)
    } else if encoding_fault(own_signature, Field::SignatureShare) is Some {
        encoding_fault(own_signature, Field::SignatureShare) == Some(e)
    } else if !peer_values_well_formed(public_keys, Field::PublicShare) {
        peer_value_fault(public_keys, Field::PublicShare, e)
    } else {
        encoding_fault(own_public_key, Field::UserPublicKey) == Some(e)
    }
}

/// `req` is the aggregation request that a client aggregation makes, with
/// listings of the peers' maps.
pub open spec fn client_request(
    req: AggregateFrostRequest,
    msg: Seq<u8>,
    own_commitment: SigningCommitment,
    peers: Map<String, SigningCommitment>,
    signatures: Map<String, Vec<u8>>,
    own_signature: Seq<u8>,
    public_keys: Map<String, Vec<u8>>,
    own_public_key: Seq<u8>,
    verifying_key: Seq<u8>,
) -> bool {
    &&& req.message@ == msg
    &&& lists(req.commitments@, peers)
    &&& req.user_commitments == Some(own_commitment)
    &&& req.verifying_key@ == verifying_key
    &&& lists(req.signature_shares@, signatures)
    &&& req.user_signature_share@ == own_signature
    &&& lists(req.public_shares@, public_keys)
    &&& req.user_public_key@ == own_public_key
}

/// Combine the operators' and the user's signature shares of `msg` into one
/// 64-byte signature that verifies under the group key tweaked with an
/// empty Merkle root.
pub fn aggregate_frost(
    msg: Vec<u8>,
    statechain_commitments: HashMap<String, SigningCommitment>,
    self_commitment: SigningCommitment,
    statechain_signatures: HashMap<String, Vec<u8>>,
    self_signature: Vec<u8>,
    statechain_public_keys: HashMap<String, Vec<u8>>,
    self_public_key: Vec<u8>,
    verifying_key: Vec<u8>,
) -> (r: Result<Vec<u8>, Error>)
    ensures
        match r {
            Ok(sig) => {
                &&& client_aggregate_valid(self_commitment, statechain_commitments@, statechain_signatures@,
                    self_signature@, statechain_public_keys@, self_public_key@, verifying_key@)
                &&& sig@.len() == 64
                &&& exists|req: AggregateFrostRequest| #[trigger] client_request(req, msg@, self_commitment,
                    statechain_commitments@, statechain_signatures@, self_signature@, statechain_public_keys@,
                    self_public_key@, verifying_key@) && aggregate_for(req, seq![]) == Some(sig@)
                    && aggregate_verifies(req, seq![], sig@)
            },
            Err(e) => if client_aggregate_valid(self_commitment, statechain_commitments@, statechain_signatures@,
                self_signature@, statechain_public_keys@, self_public_key@, verifying_key@) {
                is_aggregation_failure(e) && exists|req: AggregateFrostRequest| #[trigger] client_request(req, msg@, self_commitment,
                    statechain_commitments@, statechain_signatures@, self_signature@, statechain_public_keys@,
                    self_public_key@, verifying_key@) && aggregate_for(req, seq![]) is None
            } else {
                client_aggregate_refused_with(e, self_commitment, statechain_commitments@, statechain_signatures@,
                    self_signature@, statechain_public_keys@, self_public_key@, verifying_key@)
            },
        },
{
    let ghost msg_view = msg@;
    let req = AggregateFrostRequest {
        message: msg,
        commitments: entries_of(statechain_commitments),
        user_commitments: Some(self_commitment),
        verifying_key,
        signature_shares: entries_of(statechain_signatures),
        public_shares: entries_of(statechain_public_keys),
        user_public_key: self_public_key,
        user_signature_share: self_signature,
    };
    proof {
        lemma_commitment_entries_of(statechain_commitments@, req.commitments@);
        lemma_value_entries_of(statechain_signatures@, req.signature_shares@, Field::SignatureShare);
        lemma_value_entries_of(statechain_public_keys@, req.public_shares@, Field::PublicShare);
        assert(client_request(req, msg_view, self_commitment, statechain_commitments@, statechain_signatures@,
            self_signature@, statechain_public_keys@, self_public_key@, verifying_key@));
        assert((signing::aggregate_refusal(req) is None) == client_aggregate_valid(self_commitment,
            statechain_commitments@, statechain_signatures@, self_signature@, statechain_public_keys@,
            self_public_key@, verifying_key@));
        if signing::aggregate_refusal(req) is Some {
            assert(client_aggregate_refused_with(signing::aggregate_refusal(req)->0, self_commitment,
                statechain_commitments@, statechain_signatures@, self_signature@, statechain_public_keys@,
                self_public_key@, verifying_key@));
        }
    }
    let ghost the_req = req;
    let r = signing::aggregate_frost(&req);
    assert(client_request(the_req, msg_view, self_commitment, statechain_commitments@, statechain_signatures@,
        self_signature@, statechain_public_keys@, self_public_key@, verifying_key@));
    r
}

} // verus!
