use vstd::prelude::*;
use crate::dkg::{package_entries_match, parsed_map, IdEntries};
use crate::entries::{entries_map, lookup_by_str, put_entry};
use crate::identifier::{hex_string_to_identifier, identifier_of_hex, user_identifier, user_identifier_spec};
use crate::primitives::{
    aggregate_of, aggregate_shares_with_tweak, nonce_commitment_of, commit_nonces, commitments_view, even_y_key_package,
    even_y_of, has_even_y_of, key_package_of, key_parts, key_parts_of, key_share_of, new_key_package,
    new_public_key_package, new_signing_package, pairs_view, point_accepted, point_bytes_ok,
    public_key_package_of, scalar_accepted, scalar_bytes_ok, share_of, sign_share,
    sign_share_with_tweak, signing_package_of, tweak_key_package, tweaked_of, tweaked_share_of,
    verifies_under, verifying_key_has_even_y, CommitmentEntry, KeyParts, KeyShare,
};
use crate::wire::{role_from_code, role_of_code, Error, Field, KeyPackage, NonceResult, Role, SigningCommitment, SigningNonce, Stage};

verus! {

/// Fields that hold a compressed curve point; the others hold a scalar.
pub open spec fn is_point_field(f: Field) -> bool {
    !(f is SecretShare || f is Nonce || f is SignatureShare)
}

/// What is wrong with the bytes of a field: a length other than 33 for a
/// point or 32 for a scalar, else an encoding the curve refuses.
pub open spec fn encoding_fault(b: Seq<u8>, f: Field) -> Option<Error> {
    if is_point_field(f) {
        if b.len() != 33 {
            Some(Error::InvalidLength(f))
        } else if !point_accepted(b) {
            Some(Error::Malformed(f))
        } else {
            None
        }
    } else {
        if b.len() != 32 {
            Some(Error::InvalidLength(f))
        } else if !scalar_accepted(b) {
            Some(Error::Malformed(f))
        } else {
            None
        }
    }
}

/// Check the bytes of a field: its length, then its encoding.
pub fn check_encoding(b: &Vec<u8>, f: Field) -> (r: Result<(), Error>)
    ensures
        match r {
            Ok(_) => encoding_fault(b@, f) is None,
            Err(e) => encoding_fault(b@, f) == Some(e),
        },
{
    let point = match f {
        Field::SecretShare | Field::Nonce | Field::SignatureShare => false,
        _ => true,
    };
    if point {
        if b.len() != 33 {
            return Err(Error::InvalidLength(f));
        }
        if !point_bytes_ok(b.as_slice()) {
            return Err(Error::Malformed(f));
        }
    } else {
        if b.len() != 32 {
            return Err(Error::InvalidLength(f));
        }
        if !scalar_bytes_ok(b.as_slice()) {
            return Err(Error::Malformed(f));
        }
    }
    Ok(())
}

/// What is wrong with a commitment: its hiding point, then its binding one.
pub open spec fn commitment_fault(c: SigningCommitment, f: Field) -> Option<Error> {
    if encoding_fault(c.hiding@, f) is Some {
        encoding_fault(c.hiding@, f)
    } else {
        encoding_fault(c.binding@, f)
    }
}

/// What is wrong with a nonce pair: its hiding scalar, then its binding one.
pub open spec fn nonce_fault(n: SigningNonce) -> Option<Error> {
    if encoding_fault(n.hiding@, Field::Nonce) is Some {
        encoding_fault(n.hiding@, Field::Nonce)
    } else {
        encoding_fault(n.binding@, Field::Nonce)
    }
}

/// Read a wire nonce pair: two canonical 32-byte scalars.
pub fn frost_nonce_from_proto(nonce: &SigningNonce) -> (r: Result<(Vec<u8>, Vec<u8>), Error>)
    ensures
        match r {
            Ok(v) => nonce_fault(*nonce) is None && v.0@ == nonce.hiding@ && v.1@ == nonce.binding@,
            Err(e) => nonce_fault(*nonce) == Some(e),
        },
{
    match check_encoding(&nonce.hiding, Field::Nonce) {
        Ok(_) => {},
        Err(e) => return Err(e),
    }
    match check_encoding(&nonce.binding, Field::Nonce) {
        Ok(_) => {},
        Err(e) => return Err(e),
    }
    Ok((nonce.hiding.clone(), nonce.binding.clone()))
}

/// Read a wire commitment: two compressed curve points; `field` names the
/// commitment in the error.
pub fn frost_commitments_from_proto(commitments: &SigningCommitment, field: Field) -> (r: Result<(Vec<u8>, Vec<u8>), Error>)
    requires
        is_point_field(field),
    ensures
        match r {
            Ok(v) => commitment_fault(*commitments, field) is None && v.0@ == commitments.hiding@
                && v.1@ == commitments.binding@,
            Err(e) => commitment_fault(*commitments, field) == Some(e),
        },
{
    match check_encoding(&commitments.hiding, field) {
        Ok(_) => {},
        Err(e) => return Err(e),
    }
    match check_encoding(&commitments.binding, field) {
        Ok(_) => {},
        Err(e) => return Err(e),
    }
    Ok((commitments.hiding.clone(), commitments.binding.clone()))
}

/// What is wrong with one entry of a wire commitment map: a key that names
/// no identifier, then the commitment.
pub open spec fn commitment_entry_fault(e: (String, SigningCommitment)) -> Option<Error> {
    if identifier_of_hex(e.0@) is None {
        Some(Error::InvalidIdentifier)
    } else {
        commitment_fault(e.1, Field::Commitment)
    }
}

/// The first fault of a wire commitment map, entry by entry.
pub open spec fn commitment_map_refusal(m: Seq<(String, SigningCommitment)>) -> Option<Error>
    decreases m.len(),
{
    if m.len() == 0 {
        None
    } else if commitment_entry_fault(m[0]) is Some {
        commitment_entry_fault(m[0])
    } else {
        commitment_map_refusal(m.drop_first())
    }
}

/// `r` is the wire commitment map `m` keyed by identifier bytes.
pub open spec fn commitment_entries_match(m: Seq<(String, SigningCommitment)>, r: Seq<CommitmentEntry>) -> bool {
    &&& r.len() == m.len()
    &&& forall|j: int|
        0 <= j < m.len() ==> identifier_of_hex((#[trigger] m[j]).0@) == Some(r[j].0@) && r[j].1.0@
            == m[j].1.hiding@ && r[j].1.1@ == m[j].1.binding@
}

/// A wire commitment map read as identifier bytes and point bytes.
pub open spec fn parsed_commitments(m: Seq<(String, SigningCommitment)>) -> Seq<(Seq<u8>, (Seq<u8>, Seq<u8>))> {
    m.map_values(|e: (String, SigningCommitment)| (identifier_of_hex(e.0@)->0, (e.1.hiding@, e.1.binding@)))
}

/// Every entry of a wire commitment map is well formed.
pub open spec fn commitment_map_well_formed(m: Seq<(String, SigningCommitment)>) -> bool {
    forall|j: int| 0 <= j < m.len() ==> commitment_entry_fault(#[trigger] m[j]) is None
}

/// A commitment map is refused exactly when some entry is malformed, and
/// then with the fault of one of its entries.
pub proof fn lemma_commitment_map_refusal(m: Seq<(String, SigningCommitment)>)
    ensures
        commitment_map_refusal(m) is None <==> commitment_map_well_formed(m),
        commitment_map_refusal(m) matches Some(e) ==> exists|j: int|
            0 <= j < m.len() && commitment_entry_fault(#[trigger] m[j]) == Some(e),
    decreases m.len(),
{
    if m.len() > 0 {
        let rest = m.drop_first();
        lemma_commitment_map_refusal(rest);
        assert forall|j: int| 0 < j < m.len() implies #[trigger] m[j] == rest[j - 1] by {}
        if commitment_map_well_formed(m) {
            assert forall|j: int| 0 <= j < rest.len() implies commitment_entry_fault(
                #[trigger] rest[j],
            ) is None by {
                assert(rest[j] == m[j + 1]);
            }
        }
        if commitment_map_refusal(m) is Some && commitment_entry_fault(m[0]) is None {
            let e = commitment_map_refusal(m)->0;
            let j = choose|j: int| 0 <= j < rest.len() && commitment_entry_fault(#[trigger] rest[j]) == Some(e);
            assert(m[j + 1] == rest[j]);
        }
    }
}

/// Read a wire commitment map keyed by hex identifiers.
pub fn frost_signing_commiement_map_from_proto(map: &Vec<(String, SigningCommitment)>) -> (r: Result<Vec<CommitmentEntry>, Error>)
    ensures
        match r {
            Ok(v) => commitment_map_refusal(map@) is None && commitment_entries_match(map@, v@)
                && commitments_view(v@) == parsed_commitments(map@),
            Err(e) => commitment_map_refusal(map@) == Some(e),
        },
{
    let mut out: Vec<CommitmentEntry> = Vec::new();
    let mut j: usize = 0;
    assert(map@.subrange(0, map@.len() as int) =~= map@);
    while j < map.len()
        invariant
            j <= map@.len(),
            out@.len() == j,
            commitment_map_refusal(map@) == commitment_map_refusal(map@.subrange(j as int, map@.len() as int)),
            forall|i: int|
                0 <= i < j ==> identifier_of_hex((#[trigger] map@[i]).0@) == Some(out@[i].0@)
                    && out@[i].1.0@ == map@[i].1.hiding@ && out@[i].1.1@ == map@[i].1.binding@,
        decreases map@.len() - j,
    {
        proof {
            let rest = map@.subrange(j as int, map@.len() as int);
            assert(rest[0] == map@[j as int]);
            assert(rest.drop_first() =~= map@.subrange(j + 1, map@.len() as int));
        }
        let id = match hex_string_to_identifier(map[j].0.as_str()) {
            Ok(id) => id,
            Err(e) => return Err(e),
        };
        let c = match frost_commitments_from_proto(&map[j].1, Field::Commitment) {
            Ok(c) => c,
            Err(e) => return Err(e),
        };
        out.push((id, c));
        j = j + 1;
    }
    assert(map@.subrange(j as int, map@.len() as int).len() == 0);
    assert(commitments_view(out@) =~= parsed_commitments(map@));
    Ok(out)
}

/// Read the group verifying key: a compressed curve point.
pub fn verifying_key_from_bytes(bytes: &Vec<u8>) -> (r: Result<Vec<u8>, Error>)
    ensures
        match r {
            Ok(v) => encoding_fault(bytes@, Field::VerifyingKey) is None && v@ == bytes@,
            Err(e) => encoding_fault(bytes@, Field::VerifyingKey) == Some(e),
        },
{
    match check_encoding(bytes, Field::VerifyingKey) {
        Ok(_) => Ok(bytes.clone()),
        Err(e) => Err(e),
    }
}

/// What is wrong with one entry of a map of encoded values: a key that
/// names no identifier, then the value.
pub open spec fn value_entry_fault(e: (String, Vec<u8>), field: Field) -> Option<Error> {
    if identifier_of_hex(e.0@) is None {
        Some(Error::InvalidIdentifier)
    } else {
        encoding_fault(e.1@, field)
    }
}

/// The first fault of a map of encoded values keyed by hex identifiers.
pub open spec fn sized_entries_refusal(m: Seq<(String, Vec<u8>)>, field: Field) -> Option<Error>
    decreases m.len(),
{
    if m.len() == 0 {
        None
    } else if value_entry_fault(m[0], field) is Some {
        value_entry_fault(m[0], field)
    } else {
        sized_entries_refusal(m.drop_first(), field)
    }
}

/// Every entry of a map of encoded values is well formed.
pub open spec fn sized_entries_well_formed(m: Seq<(String, Vec<u8>)>, field: Field) -> bool {
    forall|j: int| 0 <= j < m.len() ==> value_entry_fault(#[trigger] m[j], field) is None
}

/// A map of encoded values is refused exactly when some entry is malformed,
/// and then with the fault of one of its entries.
pub proof fn lemma_sized_entries_refusal(m: Seq<(String, Vec<u8>)>, field: Field)
    ensures
        sized_entries_refusal(m, field) is None <==> sized_entries_well_formed(m, field),
        sized_entries_refusal(m, field) matches Some(e) ==> exists|j: int|
            0 <= j < m.len() && value_entry_fault(#[trigger] m[j], field) == Some(e),
    decreases m.len(),
{
    if m.len() > 0 {
        let rest = m.drop_first();
        lemma_sized_entries_refusal(rest, field);
        assert forall|j: int| 0 < j < m.len() implies #[trigger] m[j] == rest[j - 1] by {}
        if sized_entries_well_formed(m, field) {
            assert forall|j: int| 0 <= j < rest.len() implies value_entry_fault(
                #[trigger] rest[j],
                field,
            ) is None by {
                assert(rest[j] == m[j + 1]);
            }
        }
        if sized_entries_refusal(m, field) is Some && value_entry_fault(m[0], field) is None {
            let e = sized_entries_refusal(m, field)->0;
            let j = choose|j: int| 0 <= j < rest.len() && value_entry_fault(#[trigger] rest[j], field) == Some(e);
            assert(m[j + 1] == rest[j]);
        }
    }
}

/// Read a map of encoded values keyed by hex identifiers.
pub fn sized_entries_from_proto(map: &Vec<(String, Vec<u8>)>, field: Field) -> (r: Result<IdEntries, Error>)
    ensures
        match r {
            Ok(v) => sized_entries_refusal(map@, field) is None && package_entries_match(map@, v@),
            Err(e) => sized_entries_refusal(map@, field) == Some(e),
        },
{
    let mut out: IdEntries = Vec::new();
    let mut j: usize = 0;
    assert(map@.subrange(0, map@.len() as int) =~= map@);
    while j < map.len()
        invariant
            j <= map@.len(),
            out@.len() == j,
            sized_entries_refusal(map@, field) == sized_entries_refusal(
                map@.subrange(j as int, map@.len() as int),
                field,
            ),
            forall|i: int|
                0 <= i < j ==> identifier_of_hex((#[trigger] map@[i]).0@) == Some(out@[i].0@)
                    && out@[i].1@ == map@[i].1@,
        decreases map@.len() - j,
    {
        proof {
            let rest = map@.subrange(j as int, map@.len() as int);
            assert(rest[0] == map@[j as int]);
            assert(rest.drop_first() =~= map@.subrange(j + 1, map@.len() as int));
        }
        let id = match hex_string_to_identifier(map[j].0.as_str()) {
            Ok(id) => id,
            Err(e) => return Err(e),
        };
        match check_encoding(&map[j].1, field) {
            Ok(_) => {},
            Err(e) => return Err(e),
        }
        out.push((id, map[j].1.clone()));
        j = j + 1;
    }
    assert(map@.subrange(j as int, map@.len() as int).len() == 0);
    Ok(out)
}

/// Why a wire key package cannot be read, in this order: its secret share,
/// its own public share missing or malformed, its identifier.
pub open spec fn key_package_refusal(kp: KeyPackage) -> Option<Error> {
    let shares = entries_map(kp.public_shares@);
    if encoding_fault(kp.secret_share@, Field::SecretShare) is Some {
        encoding_fault(kp.secret_share@, Field::SecretShare)
    } else if !shares.contains_key(kp.identifier@) {
        Some(Error::OwnShareMissing)
    } else if encoding_fault(shares[kp.identifier@]@, Field::PublicShare) is Some {
        encoding_fault(shares[kp.identifier@]@, Field::PublicShare)
    } else if identifier_of_hex(kp.identifier@) is None {
        Some(Error::InvalidIdentifier)
    } else {
        None
    }
}

/// The parts that a readable wire key package gives, under the group key
/// `verifying_key` and the identifier override if there is one.
pub open spec fn wire_key_parts(kp: KeyPackage, identifier_override: Option<Seq<u8>>, verifying_key: Seq<u8>) -> KeyParts {
    (
        match identifier_override {
            Some(o) => o,
            None => identifier_of_hex(kp.identifier@)->0,
        },
        kp.secret_share@,
        entries_map(kp.public_shares@)[kp.identifier@]@,
        verifying_key,
        kp.min_signers,
    )
}

/// Byte fields of the wrong length are refused before anything is parsed:
/// a secret share that is not 32 bytes, an own public share that is not 33.
pub proof fn lemma_malformed_lengths_refused(kp: KeyPackage)
    ensures
        kp.secret_share@.len() != 32 ==> key_package_refusal(kp) == Some(
            Error::InvalidLength(Field::SecretShare),
        ),
        scalar_accepted(kp.secret_share@) && entries_map(kp.public_shares@).contains_key(kp.identifier@)
            && entries_map(kp.public_shares@)[kp.identifier@]@.len() != 33 ==> key_package_refusal(kp)
            == Some(Error::InvalidLength(Field::PublicShare)),
        encoding_fault(kp.public_key@, Field::VerifyingKey) is None ==> nonce_refusal(kp) == key_package_refusal(kp),
{
}

/// The bytes of an identifier override, if there is one.
pub open spec fn override_view(o: Option<Vec<u8>>) -> Option<Seq<u8>> {
    match o {
        Some(v) => Some(v@),
        None => None,
    }
}

/// Read a wire key package into the parts of a FROST key package.
pub fn key_share_from_proto(key_package: &KeyPackage, identifier_override: Option<Vec<u8>>, verifying_key: &Vec<u8>) -> (r: Result<KeyShare, Error>)
    ensures
        match r {
            Ok(k) => key_package_refusal(*key_package) is None && key_parts(k) == wire_key_parts(
                *key_package,
                override_view(identifier_override),
                verifying_key@,
            ),
            Err(e) => key_package_refusal(*key_package) == Some(e),
        },
{
    match check_encoding(&key_package.secret_share, Field::SecretShare) {
        Ok(_) => {},
        Err(e) => return Err(e),
    }
    let share = match lookup_by_str(&key_package.public_shares, &key_package.identifier) {
        Some(s) => s,
        None => return Err(Error::OwnShareMissing),
    };
    match check_encoding(share, Field::PublicShare) {
        Ok(_) => {},
        Err(e) => return Err(e),
    }
    let parsed = match hex_string_to_identifier(key_package.identifier.as_str()) {
        Ok(id) => id,
        Err(e) => return Err(e),
    };
    let identifier = match identifier_override {
        Some(o) => o,
        None => parsed,
    };
    Ok(KeyShare {
        identifier,
        signing_share: key_package.secret_share.clone(),
        verifying_share: share.clone(),
        verifying_key: verifying_key.clone(),
        min_signers: key_package.min_signers,
    })
}

/// The user's signing parts: identifier, signing share and verifying share
/// from the even-Y corrected package, group key and threshold from the
/// tweaked one.
pub open spec fn user_parts(even: KeyParts, tweaked: KeyParts) -> KeyParts {
    (even.0, even.1, even.2, tweaked.3, tweaked.4)
}

/// Combine the even-Y corrected and the tweaked forms of the user's key
/// package: the stored secret stays untweaked while the reported group key
/// is the tweaked one.
pub fn user_signing_share(even: &KeyShare, tweaked: &KeyShare) -> (r: KeyShare)
    ensures
        key_parts(r) == user_parts(key_parts(*even), key_parts(*tweaked)),
{
    KeyShare {
        identifier: even.identifier.clone(),
        signing_share: even.signing_share.clone(),
        verifying_share: even.verifying_share.clone(),
        verifying_key: tweaked.verifying_key.clone(),
        min_signers: tweaked.min_signers,
    }
}

/// The parts that sign for a role. An operator's are its own; the user's
/// come from its key package corrected to even Y (as its group key says)
/// and the same package tweaked by `merkle_root`.
pub open spec fn resolved_key_parts(parts: KeyParts, role: Role, merkle_root: Seq<u8>) -> Option<KeyParts> {
    match role {
        Role::Operator => Some(parts),
        Role::User => match key_package_of(parts) {
            None => None,
            Some(base) => match (tweaked_of(base, merkle_root), has_even_y_of(parts.3)) {
                (Some(tweaked), Some(is_even)) => match even_y_of(base, is_even) {
                    None => None,
                    Some(even) => match (key_parts_of(tweaked), key_parts_of(even)) {
                        (Some(t), Some(e)) => Some(user_parts(e, t)),
                        _ => None,
                    },
                },
                _ => None,
            },
        },
    }
}

/// The encoded key package that signs for a role.
pub open spec fn resolved_key_package(parts: KeyParts, role: Role, merkle_root: Seq<u8>) -> Option<Seq<u8>> {
    match resolved_key_parts(parts, role, merkle_root) {
        Some(k) => key_package_of(k),
        None => None,
    }
}

/// Apply the role's tweak policy to a key share, and encode the FROST key
/// package that signs. An operator's share is used unchanged (the tweak is
/// applied when signing); the user's share is even-Y corrected and reports
/// the group key tweaked by `merkle_root`.
pub fn resolve_key_package(share: KeyShare, role: Role, merkle_root: &[u8]) -> (r: Result<(KeyShare, Vec<u8>), Error>)
    ensures
        match r {
            Ok((k, b)) => resolved_key_parts(key_parts(share), role, merkle_root@) == Some(key_parts(k))
                && resolved_key_package(key_parts(share), role, merkle_root@) == Some(b@),
            Err(e) => resolved_key_package(key_parts(share), role, merkle_root@) is None && e
                == Error::Crypto(Stage::KeyPackage),
        },
{
    let base = match new_key_package(&share) {
        Some(b) => b,
        None => return Err(Error::Crypto(Stage::KeyPackage)),
    };
    match role {
        Role::Operator => Ok((share, base)),
        Role::User => {
            let tweaked = match tweak_key_package(base.as_slice(), merkle_root) {
                Some(t) => t,
                None => return Err(Error::Crypto(Stage::KeyPackage)),
            };
            let is_even = match verifying_key_has_even_y(share.verifying_key.as_slice()) {
                Some(e) => e,
                None => return Err(Error::Crypto(Stage::KeyPackage)),
            };
            let even = match even_y_key_package(base.as_slice(), is_even) {
                Some(e) => e,
                None => return Err(Error::Crypto(Stage::KeyPackage)),
            };
            let tweaked_share = match key_share_of(tweaked.as_slice()) {
                Some(k) => k,
                None => return Err(Error::Crypto(Stage::KeyPackage)),
            };
            let even_share = match key_share_of(even.as_slice()) {
                Some(k) => k,
                None => return Err(Error::Crypto(Stage::KeyPackage)),
            };
            let combined = user_signing_share(&even_share, &tweaked_share);
            match new_key_package(&combined) {
                Some(b) => Ok((combined, b)),
                None => Err(Error::Crypto(Stage::KeyPackage)),
            }
        },
    }
}

/// Why the commitment set of a signing session cannot be formed: a fault in
/// the peers' map, no user identifier, or the own commitment absent or
/// malformed.
pub open spec fn commitments_refusal(peers: Seq<(String, SigningCommitment)>, own: Option<SigningCommitment>) -> Option<Error> {
    if commitment_map_refusal(peers) is Some {
        commitment_map_refusal(peers)
    } else if user_identifier_spec() is None {
        Some(Error::Crypto(Stage::UserIdentifier))
    } else {
        match own {
            None => Some(Error::Missing(Field::UserCommitment)),
            Some(c) => commitment_fault(c, Field::UserCommitment),
        }
    }
}

/// The commitment set of a signing session: the peers' commitments, then
/// the own one under the user identifier.
pub open spec fn with_user_commitments(peers: Seq<(String, SigningCommitment)>, user: Seq<u8>, own: SigningCommitment) -> Seq<(Seq<u8>, (Seq<u8>, Seq<u8>))> {
    parsed_commitments(peers).push((user, (own.hiding@, own.binding@)))
}

/// Form the commitment set of a signing session: the peers' commitments,
/// then the own commitment under the user identifier, which therefore always
/// belongs to the set.
pub fn commitments_with_user(peers: &Vec<(String, SigningCommitment)>, own: &Option<SigningCommitment>) -> (r: Result<(Vec<CommitmentEntry>, Vec<u8>), Error>)
    ensures
        match r {
            Ok((v, user)) => {
                &&& commitments_refusal(peers@, *own) is None
                &&& user_identifier_spec() == Some(user@)
                &&& commitments_view(v@) == with_user_commitments(peers@, user@, own->0)
                &&& entries_map(v@) == entries_map(v@.drop_last()).insert(user@, v@.last().1)
            },
            Err(e) => commitments_refusal(peers@, *own) == Some(e),
        },
{
    let mut entries = match frost_signing_commiement_map_from_proto(peers) {
        Ok(v) => v,
        Err(e) => return Err(e),
    };
    let user = match user_identifier() {
        Ok(u) => u,
        Err(e) => return Err(e),
    };
    let c = match own {
        Some(c) => match frost_commitments_from_proto(c, Field::UserCommitment) {
            Ok(c) => c,
            Err(e) => return Err(e),
        },
        None => return Err(Error::Missing(Field::UserCommitment)),
    };
    let ghost before = entries@;
    put_entry(&mut entries, user.clone(), c);
    assert(entries@.drop_last() =~= before);
    assert(commitments_view(entries@) =~= commitments_view(before).push((user@, (c.0@, c.1@))));
    Ok((entries, user))
}

/// Read a wire key package and apply the role's tweak policy: the key share
/// that signs, and its encoded FROST key package.
pub fn frost_key_package_from_proto(
    key_package: &KeyPackage,
    identifier_override: Option<Vec<u8>>,
    verifying_key: &Vec<u8>,
    role: Role,
    merkle_root: &[u8],
) -> (r: Result<(KeyShare, Vec<u8>), Error>)
    ensures
        match r {
            Ok((k, b)) => {
                &&& key_package_refusal(*key_package) is None
                &&& resolved_key_parts(wire_key_parts(*key_package, override_view(identifier_override), verifying_key@), role, merkle_root@) == Some(key_parts(k))
                &&& resolved_key_package(wire_key_parts(*key_package, override_view(identifier_override), verifying_key@), role, merkle_root@) == Some(b@)
            },
            Err(e) => match key_package_refusal(*key_package) {
                Some(refusal) => e == refusal,
                None => e == Error::Crypto(Stage::KeyPackage) && resolved_key_package(
                    wire_key_parts(*key_package, override_view(identifier_override), verifying_key@),
                    role,
                    merkle_root@,
                ) is None,
            },
        },
{
    let share = match key_share_from_proto(key_package, identifier_override, verifying_key) {
        Ok(k) => k,
        Err(e) => return Err(e),
    };
    resolve_key_package(share, role, merkle_root)
}

/// Encode the signing package of a commitment set and a message.
pub fn frost_build_signin_package(signing_commitments: &Vec<CommitmentEntry>, message: &[u8]) -> (r: Result<Vec<u8>, Error>)
    ensures
        match r {
            Ok(p) => signing_package_of(commitments_view(signing_commitments@), message@) == Some(p@),
            Err(e) => signing_package_of(commitments_view(signing_commitments@), message@) is None
                && e == Error::Crypto(Stage::SigningPackage),
        },
{
    match new_signing_package(signing_commitments, message) {
        Some(p) => Ok(p),
        None => Err(Error::Crypto(Stage::SigningPackage)),
    }
}

/// One signing job: the message, this signer's key package and nonce, the
/// signers' commitments (the user's apart), and the group verifying key.
#[derive(Debug)]
pub struct SigningJob {
    pub job_id: String,
    pub message: Vec<u8>,
    pub key_package: Option<KeyPackage>,
    pub nonce: Option<SigningNonce>,
    pub user_commitments: Option<SigningCommitment>,
    pub verifying_key: Vec<u8>,
    pub commitments: Vec<(String, SigningCommitment)>,
}

/// Signing jobs for one role, given by its wire code.
#[derive(Debug)]
pub struct SignFrostRequest {
    pub signing_jobs: Vec<SigningJob>,
    pub role: i32,
}

/// The signature share of one job.
#[derive(Debug, Clone)]
pub struct SigningResult {
    pub job_id: String,
    pub signature_share: Vec<u8>,
}

/// Why a signing job is refused before any signing work, in this order: the
/// commitment set, the nonce, the group key, the key package.
pub open spec fn sign_refusal(job: SigningJob) -> Option<Error> {
    if commitments_refusal(job.commitments@, job.user_commitments) is Some {
        commitments_refusal(job.commitments@, job.user_commitments)
    } else {
        match job.nonce {
            None => Some(Error::Missing(Field::Nonce)),
            Some(n) => if nonce_fault(n) is Some {
                nonce_fault(n)
            } else if encoding_fault(job.verifying_key@, Field::VerifyingKey) is Some {
                encoding_fault(job.verifying_key@, Field::VerifyingKey)
            } else {
                match job.key_package {
                    None => Some(Error::Missing(Field::KeyPackage)),
                    Some(kp) => key_package_refusal(kp),
                }
            },
        }
    }
}

/// The parts of a job's key package, under the user identifier when the
/// user signs.
pub open spec fn job_key_parts(job: SigningJob, role: Role) -> KeyParts {
    wire_key_parts(
        job.key_package->0,
        match role {
            Role::Operator => None,
            Role::User => user_identifier_spec(),
        },
        job.verifying_key@,
    )
}

/// The share that a job signs to: the signing package of its commitment
/// set and message, signed with the key package resolved for the role, with
/// the tweak by `merkle_root` applied at signing time for an operator.
pub open spec fn share_for(job: SigningJob, role: Role, merkle_root: Seq<u8>) -> Option<Seq<u8>> {
    let n = job.nonce->0;
    match resolved_key_package(job_key_parts(job, role), role, merkle_root) {
        None => None,
        Some(kp) => match signing_package_of(
            with_user_commitments(job.commitments@, user_identifier_spec()->0, job.user_commitments->0),
            job.message@,
        ) {
            None => None,
            Some(pkg) => match role {
                Role::Operator => tweaked_share_of(pkg, n.hiding@, n.binding@, kp, merkle_root),
                Role::User => share_of(pkg, n.hiding@, n.binding@, kp),
            },
        },
    }
}

/// A failure of a signing primitive.
pub open spec fn is_signing_failure(e: Error) -> bool {
    e == Error::Crypto(Stage::SigningPackage) || e == Error::Crypto(Stage::KeyPackage) || e
        == Error::Crypto(Stage::Sign)
}

/// Produce this signer's 32-byte signature share for one job. An operator
/// signs with the tweak by `merkle_root` applied at signing time; the user
/// signs with its even-Y corrected share under the tweaked group key.
pub fn sign_job(job: &SigningJob, role: Role, merkle_root: &[u8]) -> (r: Result<Vec<u8>, Error>)
    ensures
        match r {
            Ok(share) => sign_refusal(*job) is None && share_for(*job, role, merkle_root@) == Some(share@)
                && share@.len() == 32,
            Err(e) => match sign_refusal(*job) {
                Some(refusal) => e == refusal,
                None => share_for(*job, role, merkle_root@) is None && is_signing_failure(e),
            },
        },
{
    let (commitments, user) = match commitments_with_user(&job.commitments, &job.user_commitments) {
        Ok(v) => v,
        Err(e) => return Err(e),
    };
    let (hiding, binding) = match &job.nonce {
        Some(n) => match frost_nonce_from_proto(n) {
            Ok(v) => v,
            Err(e) => return Err(e),
        },
        None => return Err(Error::Missing(Field::Nonce)),
    };
    let verifying_key = match verifying_key_from_bytes(&job.verifying_key) {
        Ok(v) => v,
        Err(e) => return Err(e),
    };
    let identifier_override = match role {
        Role::Operator => None,
        Role::User => Some(user),
    };
    let (_, key_package) = match &job.key_package {
        Some(kp) => match frost_key_package_from_proto(kp, identifier_override, &verifying_key, role, merkle_root) {
            Ok(v) => v,
            Err(e) => return Err(e),
        },
        None => return Err(Error::Missing(Field::KeyPackage)),
    };
    let signing_package = match frost_build_signin_package(&commitments, job.message.as_slice()) {
        Ok(p) => p,
        Err(e) => return Err(e),
    };
    let signed = match role {
        Role::Operator => sign_share_with_tweak(
            signing_package.as_slice(),
            hiding.as_slice(),
            binding.as_slice(),
            key_package.as_slice(),
            merkle_root,
        ),
        Role::User => sign_share(
            signing_package.as_slice(),
            hiding.as_slice(),
            binding.as_slice(),
            key_package.as_slice(),
        ),
    };
    match signed {
        Some(s) => Ok(s),
        None => Err(Error::Crypto(Stage::Sign)),
    }
}

/// The jobs before `i` signed, and the one at `i` failed with `e`: its
/// refusal, or else a failure of the signing primitives.
pub open spec fn sign_failed_at(jobs: Seq<SigningJob>, role: Role, i: int, e: Error) -> bool {
    &&& forall|j: int| 0 <= j < i ==> sign_refusal(#[trigger] jobs[j]) is None && share_for(jobs[j], role, seq![]) is Some
    &&& match sign_refusal(jobs[i]) {
        Some(refusal) => e == refusal,
        None => share_for(jobs[i], role, seq![]) is None && is_signing_failure(e),
    }
}

/// Sign every job of a request for its role, with an empty tapscript Merkle
/// root, giving one share per job in order.
pub fn sign_frost(req: &SignFrostRequest) -> (r: Result<Vec<SigningResult>, Error>)
    ensures
        role_of_code(req.role) is None ==> r == Err::<Vec<SigningResult>, Error>(Error::InvalidRole),
        r matches Ok(results) ==> {
            &&& role_of_code(req.role) is Some
            &&& results@.len() == req.signing_jobs@.len()
            &&& forall|i: int|
                0 <= i < results@.len() ==> (#[trigger] results@[i]).job_id@
                    == req.signing_jobs@[i].job_id@ && results@[i].signature_share@.len() == 32
                    && sign_refusal(req.signing_jobs@[i]) is None
                    && share_for(req.signing_jobs@[i], role_of_code(req.role)->0, seq![]) == Some(results@[i].signature_share@)
        },
        r matches Err(e) ==> (role_of_code(req.role) is None && e == Error::InvalidRole) || exists|i: int|
            0 <= i < req.signing_jobs@.len() && #[trigger] sign_failed_at(req.signing_jobs@, role_of_code(req.role)->0, i, e),
{
    let role = match role_from_code(req.role) {
        Some(role) => role,
        None => return Err(Error::InvalidRole),
    };
    let root: Vec<u8> = Vec::new();
    assert(root@ =~= seq![]);
    let mut results: Vec<SigningResult> = Vec::new();
    let mut i: usize = 0;
    while i < req.signing_jobs.len()
        invariant
            i <= req.signing_jobs@.len(),
            role_of_code(req.role) == Some(role),
            root@ == Seq::<u8>::empty(),
            results@.len() == i,
            forall|j: int|
                0 <= j < i ==> (#[trigger] results@[j]).job_id@ == req.signing_jobs@[j].job_id@
                    && results@[j].signature_share@.len() == 32
                    && sign_refusal(req.signing_jobs@[j]) is None
                    && share_for(req.signing_jobs@[j], role, seq![]) == Some(results@[j].signature_share@),
            forall|j: int| 0 <= j < i ==> sign_refusal(#[trigger] req.signing_jobs@[j]) is None && share_for(req.signing_jobs@[j], role, seq![]) is Some,
        decreases req.signing_jobs@.len() - i,
    {
        let job = &req.signing_jobs[i];
        let share = match sign_job(job, role, root.as_slice()) {
            Ok(s) => s,
            Err(e) => {
                assert(sign_failed_at(req.signing_jobs@, role, i as int, e));
                return Err(e);
            },
        };
        results.push(SigningResult { job_id: job.job_id.clone(), signature_share: share });
        i = i + 1;
    }
    Ok(results)
}

/// Why a key package cannot give nonces: its group key, then the key
/// package itself.
pub open spec fn nonce_refusal(kp: KeyPackage) -> Option<Error> {
    if encoding_fault(kp.public_key@, Field::VerifyingKey) is Some {
        encoding_fault(kp.public_key@, Field::VerifyingKey)
    } else {
        key_package_refusal(kp)
    }
}

/// A fresh nonce pair of the wire sizes, and the commitment to it.
pub open spec fn nonce_result_sized(n: NonceResult) -> bool {
    &&& n.nonce.hiding@.len() == 32
    &&& n.nonce.binding@.len() == 32
    &&& n.commitment.hiding@.len() == 33
    &&& n.commitment.binding@.len() == 33
    &&& nonce_commitment_of(n.nonce.hiding@) == Some(n.commitment.hiding@)
    &&& nonce_commitment_of(n.nonce.binding@) == Some(n.commitment.binding@)
}

/// The key packages before `i` passed their checks, and the one at `i`
/// failed with `e`: its refusal, or else a failure of the primitives.
pub open spec fn nonce_failed_at(kps: Seq<KeyPackage>, i: int, e: Error) -> bool {
    &&& forall|j: int| 0 <= j < i ==> nonce_refusal(#[trigger] kps[j]) is None
    &&& match nonce_refusal(kps[i]) {
        Some(refusal) => e == refusal,
        None => e == Error::Crypto(Stage::KeyPackage) || e == Error::Crypto(Stage::Commit),
    }
}

/// Generate a fresh nonce pair and its commitment for each key package.
pub fn frost_nonce(key_packages: &Vec<KeyPackage>) -> (r: Result<Vec<NonceResult>, Error>)
    ensures
        r matches Ok(results) ==> {
            &&& results@.len() == key_packages@.len()
            &&& forall|i: int|
                0 <= i < results@.len() ==> nonce_result_sized(#[trigger] results@[i])
                    && nonce_refusal(key_packages@[i]) is None
        },
        r matches Err(e) ==> exists|i: int|
            0 <= i < key_packages@.len() && #[trigger] nonce_failed_at(key_packages@, i, e),
{
    let mut results: Vec<NonceResult> = Vec::new();
    let mut i: usize = 0;
    while i < key_packages.len()
        invariant
            i <= key_packages@.len(),
            results@.len() == i,
            forall|j: int|
                0 <= j < i ==> nonce_result_sized(#[trigger] results@[j]) && nonce_refusal(
                    key_packages@[j],
                ) is None,
            forall|j: int| 0 <= j < i ==> nonce_refusal(#[trigger] key_packages@[j]) is None,
        decreases key_packages@.len() - i,
    {
        let kp = &key_packages[i];
        let verifying_key = match verifying_key_from_bytes(&kp.public_key) {
            Ok(v) => v,
            Err(e) => {
                assert(nonce_failed_at(key_packages@, i as int, e));
                return Err(e);
            },
        };
        let share = match key_share_from_proto(kp, None, &verifying_key) {
            Ok(k) => k,
            Err(e) => {
                assert(nonce_failed_at(key_packages@, i as int, e));
                return Err(e);
            },
        };
        if new_key_package(&share).is_none() {
            assert(nonce_failed_at(key_packages@, i as int, Error::Crypto(Stage::KeyPackage)));
            return Err(Error::Crypto(Stage::KeyPackage));
        }
        let (nh, nb, ch, cb) = match commit_nonces(share.signing_share.as_slice()) {
            Some(t) => t,
            None => {
                assert(nonce_failed_at(key_packages@, i as int, Error::Crypto(Stage::Commit)));
                return Err(Error::Crypto(Stage::Commit));
            },
        };
        results.push(
            NonceResult {
                nonce: SigningNonce { hiding: nh, binding: nb },
                commitment: SigningCommitment { hiding: ch, binding: cb },
            },
        );
        i = i + 1;
    }
    Ok(results)
}

/// Why a map of encoded values cannot take the user's value: a fault of the
/// map, then a fault of the user's value.
pub open spec fn with_user_refusal(m: Seq<(String, Vec<u8>)>, field: Field, user_value: Seq<u8>, user_field: Field) -> Option<Error> {
    if sized_entries_refusal(m, field) is Some {
        sized_entries_refusal(m, field)
    } else {
        encoding_fault(user_value, user_field)
    }
}

/// A map of encoded values, then the user's value under the user
/// identifier, as byte strings.
pub open spec fn with_user_pairs(m: Seq<(String, Vec<u8>)>, user: Seq<u8>, user_value: Seq<u8>) -> Seq<(Seq<u8>, Seq<u8>)> {
    parsed_map(m).push((user, user_value))
}

/// Read a map of encoded values keyed by hex identifiers and set the user's
/// value under the user identifier.
pub fn entries_with_user(map: &Vec<(String, Vec<u8>)>, field: Field, user: &Vec<u8>, user_value: &Vec<u8>, user_field: Field) -> (r: Result<IdEntries, Error>)
    ensures
        match r {
            Ok(v) => {
                &&& with_user_refusal(map@, field, user_value@, user_field) is None
                &&& pairs_view(v@) == with_user_pairs(map@, user@, user_value@)
                &&& entries_map(v@) == entries_map(v@.drop_last()).insert(user@, v@.last().1)
            },
            Err(e) => with_user_refusal(map@, field, user_value@, user_field) == Some(e),
        },
{
    let mut entries = match sized_entries_from_proto(map, field) {
        Ok(v) => v,
        Err(e) => return Err(e),
    };
    match check_encoding(user_value, user_field) {
        Ok(_) => {},
        Err(e) => return Err(e),
    }
    let ghost before = entries@;
    assert(pairs_view(before) =~= parsed_map(map@));
    put_entry(&mut entries, user.clone(), user_value.clone());
    assert(entries@.drop_last() =~= before);
    assert(pairs_view(entries@) =~= pairs_view(before).push((user@, user_value@)));
    Ok(entries)
}

/// The peers' signature shares, then the user's under the user identifier;
/// each share is a canonical scalar.
pub fn frost_signature_shares_from_proto(shares: &Vec<(String, Vec<u8>)>, user_identifier: &Vec<u8>, user_signature_share: &Vec<u8>) -> (r: Result<IdEntries, Error>)
    ensures
        match r {
            Ok(v) => {
                &&& with_user_refusal(shares@, Field::SignatureShare, user_signature_share@, Field::SignatureShare) is None
                &&& pairs_view(v@) == with_user_pairs(shares@, user_identifier@, user_signature_share@)
                &&& entries_map(v@) == entries_map(v@.drop_last()).insert(user_identifier@, v@.last().1)
            },
            Err(e) => with_user_refusal(shares@, Field::SignatureShare, user_signature_share@, Field::SignatureShare) == Some(e),
        },
{
    entries_with_user(shares, Field::SignatureShare, user_identifier, user_signature_share, Field::SignatureShare)
}

/// Encode the public key package of an aggregation: the peers' verifying
/// shares, then the user's under the user identifier, with the group
/// verifying key.
pub fn frost_public_package_from_proto(public_shares: &Vec<(String, Vec<u8>)>, user_identifier: &Vec<u8>, user_public_key: &Vec<u8>, verifying_key: &Vec<u8>) -> (r: Result<Vec<u8>, Error>)
    ensures
        match r {
            Ok(p) => with_user_refusal(public_shares@, Field::PublicShare, user_public_key@, Field::UserPublicKey) is None
                && public_key_package_of(with_user_pairs(public_shares@, user_identifier@, user_public_key@), verifying_key@) == Some(p@),
            Err(e) => match with_user_refusal(public_shares@, Field::PublicShare, user_public_key@, Field::UserPublicKey) {
                Some(refusal) => e == refusal,
                None => e == Error::Crypto(Stage::PublicKeyPackage) && public_key_package_of(
                    with_user_pairs(public_shares@, user_identifier@, user_public_key@),
                    verifying_key@,
                ) is None,
            },
        },
{
    let entries = match entries_with_user(public_shares, Field::PublicShare, user_identifier, user_public_key, Field::UserPublicKey) {
        Ok(v) => v,
        Err(e) => return Err(e),
    };
    match new_public_key_package(&entries, verifying_key.as_slice()) {
        Some(p) => Ok(p),
        None => Err(Error::Crypto(Stage::PublicKeyPackage)),
    }
}

/// An aggregation: the message, the peers' and the user's commitments,
/// signature shares and public shares, and the group verifying key.
#[derive(Debug, Clone)]
pub struct AggregateFrostRequest {
    pub message: Vec<u8>,
    pub commitments: Vec<(String, SigningCommitment)>,
    pub user_commitments: Option<SigningCommitment>,
    pub verifying_key: Vec<u8>,
    pub signature_shares: Vec<(String, Vec<u8>)>,
    pub public_shares: Vec<(String, Vec<u8>)>,
    pub user_public_key: Vec<u8>,
    pub user_signature_share: Vec<u8>,
}

/// Why an aggregation is refused before any cryptographic work, in this
/// order: the commitment set, the group key, the signature shares, the
/// public shares.
pub open spec fn aggregate_refusal(req: AggregateFrostRequest) -> Option<Error> {
    if commitments_refusal(req.commitments@, req.user_commitments) is Some {
        commitments_refusal(req.commitments@, req.user_commitments)
    } else if encoding_fault(req.verifying_key@, Field::VerifyingKey) is Some {
        encoding_fault(req.verifying_key@, Field::VerifyingKey)
    } else if with_user_refusal(req.signature_shares@, Field::SignatureShare, req.user_signature_share@, Field::SignatureShare) is Some {
        with_user_refusal(req.signature_shares@, Field::SignatureShare, req.user_signature_share@, Field::SignatureShare)
    } else {
        with_user_refusal(req.public_shares@, Field::PublicShare, req.user_public_key@, Field::UserPublicKey)
    }
}

/// The public key package of an aggregation.
pub open spec fn aggregation_public_package(req: AggregateFrostRequest) -> Option<Seq<u8>> {
    public_key_package_of(
        with_user_pairs(req.public_shares@, user_identifier_spec()->0, req.user_public_key@),
        req.verifying_key@,
    )
}

/// The signing package of an aggregation.
pub open spec fn aggregation_signing_package(req: AggregateFrostRequest) -> Option<Seq<u8>> {
    signing_package_of(
        with_user_commitments(req.commitments@, user_identifier_spec()->0, req.user_commitments->0),
        req.message@,
    )
}

/// The signature that an aggregation gives under a Merkle root.
pub open spec fn aggregate_for(req: AggregateFrostRequest, merkle_root: Seq<u8>) -> Option<Seq<u8>> {
    match (aggregation_public_package(req), aggregation_signing_package(req)) {
        (Some(public_package), Some(signing_package)) => aggregate_of(
            signing_package,
            with_user_pairs(req.signature_shares@, user_identifier_spec()->0, req.user_signature_share@),
            public_package,
            merkle_root,
        ),
        _ => None,
    }
}

/// `sig` verifies for the aggregation's message under its group key
/// tweaked by the Merkle root.
pub open spec fn aggregate_verifies(req: AggregateFrostRequest, merkle_root: Seq<u8>, sig: Seq<u8>) -> bool {
    match (aggregation_public_package(req), aggregation_signing_package(req)) {
        (Some(public_package), Some(signing_package)) => verifies_under(signing_package, public_package, merkle_root, sig),
        _ => false,
    }
}

/// A failure of an aggregation primitive.
pub open spec fn is_aggregation_failure(e: Error) -> bool {
    e == Error::Crypto(Stage::SigningPackage) || e == Error::Crypto(Stage::PublicKeyPackage) || e
        == Error::Crypto(Stage::Aggregate)
}

/// Combine the signature shares into one 64-byte signature, with the public
/// key package tweaked by `merkle_root`, as every signer's tweak must be.
pub fn aggregate_with_root(req: &AggregateFrostRequest, merkle_root: &[u8]) -> (r: Result<Vec<u8>, Error>)
    ensures
        match r {
            Ok(sig) => aggregate_refusal(*req) is None && aggregate_for(*req, merkle_root@) == Some(sig@)
                && sig@.len() == 64 && aggregate_verifies(*req, merkle_root@, sig@),
            Err(e) => match aggregate_refusal(*req) {
                Some(refusal) => e == refusal,
                None => aggregate_for(*req, merkle_root@) is None && is_aggregation_failure(e),
            },
        },
{
    let (commitments, user) = match commitments_with_user(&req.commitments, &req.user_commitments) {
        Ok(v) => v,
        Err(e) => return Err(e),
    };
    let verifying_key = match verifying_key_from_bytes(&req.verifying_key) {
        Ok(v) => v,
        Err(e) => return Err(e),
    };
    let shares = match frost_signature_shares_from_proto(&req.signature_shares, &user, &req.user_signature_share) {
        Ok(v) => v,
        Err(e) => return Err(e),
    };
    let public_package = match frost_public_package_from_proto(&req.public_shares, &user, &req.user_public_key, &verifying_key) {
        Ok(p) => p,
        Err(e) => return Err(e),
    };
    let signing_package = match frost_build_signin_package(&commitments, req.message.as_slice()) {
        Ok(p) => p,
        Err(e) => return Err(e),
    };
    match aggregate_shares_with_tweak(signing_package.as_slice(), &shares, public_package.as_slice(), merkle_root) {
        Some(sig) => Ok(sig),
        None => Err(Error::Crypto(Stage::Aggregate)),
    }
}

/// Combine the signature shares into one 64-byte signature, with an empty
/// tapscript Merkle root.
pub fn aggregate_frost(req: &AggregateFrostRequest) -> (r: Result<Vec<u8>, Error>)
    ensures
        match r {
            Ok(sig) => aggregate_refusal(*req) is None && aggregate_for(*req, seq![]) == Some(sig@)
                && sig@.len() == 64 && aggregate_verifies(*req, seq![], sig@),
            Err(e) => match aggregate_refusal(*req) {
                Some(refusal) => e == refusal,
                None => aggregate_for(*req, seq![]) is None && is_aggregation_failure(e),
            },
        },
{
    let root: Vec<u8> = Vec::new();
    assert(root@ =~= seq![]);
    aggregate_with_root(req, root.as_slice())
}

} // verus!
