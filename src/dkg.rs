use vstd::prelude::*;
use crate::hex_codec::hex_of;
use crate::identifier::{hex_string_to_identifier, identifier_of_hex, identifier_to_hex};
use crate::primitives::{
    dkg_part1, dkg_part2, dkg_part2_of, dkg_part3, dkg_part3_of, key_parts, key_parts_of, key_share_of,
    pairs_view, round1_secret_sound, round2_secret_sound, KeyParts, KeyShare,
};
use crate::wire::{Error, KeyPackage, PackageMap, Stage};

verus! {

/// Entries keyed by identifier bytes: identifier, then payload.
pub type IdEntries = Vec<(Vec<u8>, Vec<u8>)>;

/// Every key of a wire package map names an identifier.
pub open spec fn package_map_parses(m: Seq<(String, Vec<u8>)>) -> bool {
    forall|j: int| 0 <= j < m.len() ==> (identifier_of_hex((#[trigger] m[j]).0@)) is Some
}

/// `r` is the wire map `m` with each key read as identifier bytes.
pub open spec fn package_entries_match(m: Seq<(String, Vec<u8>)>, r: Seq<(Vec<u8>, Vec<u8>)>) -> bool {
    &&& r.len() == m.len()
    &&& forall|j: int|
        0 <= j < m.len() ==> identifier_of_hex((#[trigger] m[j]).0@) == Some(r[j].0@) && r[j].1@
            == m[j].1@
}

/// Every map of a batch parses.
pub open spec fn package_maps_parse(ms: Seq<PackageMap>) -> bool {
    forall|k: int| 0 <= k < ms.len() ==> package_map_parses(#[trigger] ms[k].packages@)
}

/// `r` is the batch `ms` with every key read as identifier bytes.
pub open spec fn package_maps_match(ms: Seq<PackageMap>, r: Seq<IdEntries>) -> bool {
    &&& r.len() == ms.len()
    &&& forall|k: int| 0 <= k < ms.len() ==> package_entries_match(#[trigger] ms[k].packages@, r[k]@)
}

/// `m` is `r` with each identifier written as lowercase hex.
pub open spec fn wire_entries_match(r: Seq<(Vec<u8>, Vec<u8>)>, m: Seq<(String, Vec<u8>)>) -> bool {
    &&& m.len() == r.len()
    &&& forall|j: int| 0 <= j < r.len() ==> m[j].0@ == hex_of((#[trigger] r[j]).0@) && m[j].1@ == r[j].1@
}

/// Read the keys of a wire package map as identifiers.
pub fn round1_package_map_from_package_map(package_map: &PackageMap) -> (r: Result<IdEntries, Error>)
    ensures
        match r {
            Ok(v) => package_map_parses(package_map.packages@) && package_entries_match(
                package_map.packages@,
                v@,
            ),
            Err(e) => !package_map_parses(package_map.packages@) && e == Error::InvalidIdentifier,
        },
{
    let m = &package_map.packages;
    let mut out: IdEntries = Vec::new();
    let mut j: usize = 0;
    while j < m.len()
        invariant
            m@ == package_map.packages@,
            j <= m@.len(),
            out@.len() == j,
            forall|i: int|
                0 <= i < j ==> identifier_of_hex(#[trigger] m@[i].0@) == Some(out@[i].0@)
                    && out@[i].1@ == m@[i].1@,
        decreases m@.len() - j,
    {
        let id = match hex_string_to_identifier(m[j].0.as_str()) {
            Ok(id) => id,
            Err(e) => {
                assert(identifier_of_hex(m@[j as int].0@) is None);

                return Err(e);
            },
        };
        out.push((id, m[j].1.clone()));
        j = j + 1;
    }
    Ok(out)
}

/// Read the keys of every map of a batch as identifiers.
pub fn round1_package_maps_from_package_maps(package_maps: &Vec<PackageMap>) -> (r: Result<Vec<IdEntries>, Error>)
    ensures
        match r {
            Ok(v) => package_maps_parse(package_maps@) && package_maps_match(package_maps@, v@),
            Err(e) => !package_maps_parse(package_maps@) && e == Error::InvalidIdentifier,
        },
{
    let mut out: Vec<IdEntries> = Vec::new();
    let mut k: usize = 0;
    while k < package_maps.len()
        invariant
            k <= package_maps@.len(),
            out@.len() == k,
            forall|i: int|
                0 <= i < k ==> package_map_parses(#[trigger] package_maps@[i].packages@)
                    && package_entries_match(package_maps@[i].packages@, out@[i]@),
        decreases package_maps@.len() - k,
    {
        match round1_package_map_from_package_map(&package_maps[k]) {
            Ok(v) => out.push(v),
            Err(e) => {
                assert(!package_map_parses(package_maps@[k as int].packages@));
                return Err(e);
            },
        }
        k = k + 1;
    }
    Ok(out)
}

/// Read the keys of a round-two map as identifiers; the packages
/// themselves are decoded by the key-generation primitives.
pub fn round2_package_map_from_package_map(package_map: &PackageMap) -> (r: Result<IdEntries, Error>)
    ensures
        match r {
            Ok(v) => package_map_parses(package_map.packages@) && package_entries_match(
                package_map.packages@,
                v@,
            ),
            Err(e) => !package_map_parses(package_map.packages@) && e == Error::InvalidIdentifier,
        },
{
    round1_package_map_from_package_map(package_map)
}

/// Read the keys of every round-two map of a batch as identifiers; the
/// packages themselves are decoded by the key-generation primitives.
pub fn round2_package_maps_from_package_maps(package_maps: &Vec<PackageMap>) -> (r: Result<Vec<IdEntries>, Error>)
    ensures
        match r {
            Ok(v) => package_maps_parse(package_maps@) && package_maps_match(package_maps@, v@),
            Err(e) => !package_maps_parse(package_maps@) && e == Error::InvalidIdentifier,
        },
{
    round1_package_maps_from_package_maps(package_maps)
}

/// Write identifier-keyed entries as a wire package map.
pub fn package_map_to_wire(entries: &IdEntries) -> (r: PackageMap)
    ensures
        wire_entries_match(entries@, r.packages@),
{
    let mut packages: Vec<(String, Vec<u8>)> = Vec::new();
    let mut j: usize = 0;
    while j < entries.len()
        invariant
            j <= entries@.len(),
            packages@.len() == j,
            forall|i: int|
                0 <= i < j ==> (#[trigger] packages@[i]).0@ == hex_of(entries@[i].0@)
                    && packages@[i].1@ == entries@[i].1@,
        decreases entries@.len() - j,
    {
        packages.push((identifier_to_hex(&entries[j].0), entries[j].1.clone()));
        j = j + 1;
    }
    PackageMap { packages }
}

/// The wire key package for the parts of a finished key share: its own
/// public share is the only one listed.
pub open spec fn key_package_matches_parts(p: KeyPackage, k: KeyParts) -> bool {
    &&& p.identifier@ == hex_of(k.0)
    &&& p.secret_share@ == k.1
    &&& p.public_shares@.len() == 1
    &&& p.public_shares@[0].0@ == hex_of(k.0)
    &&& p.public_shares@[0].1@ == k.2
    &&& p.public_key@ == k.3
    &&& p.min_signers == k.4
}

/// Convert a finished DKG key share into the wire key package.
pub fn key_package_from_dkg_result(key_share: &KeyShare) -> (r: KeyPackage)
    ensures
        key_package_matches_parts(r, key_parts(*key_share)),
{
    let id = identifier_to_hex(&key_share.identifier);
    let mut public_shares: Vec<(String, Vec<u8>)> = Vec::new();
    public_shares.push((identifier_to_hex(&key_share.identifier), key_share.verifying_share.clone()));
    KeyPackage {
        identifier: id,
        secret_share: key_share.signing_share.clone(),
        public_shares,
        public_key: key_share.verifying_key.clone(),
        min_signers: key_share.min_signers,
    }
}

/// The server's key-generation session, with the encoded per-key secret
/// packages that the next round needs.
#[derive(Debug)]
pub enum DKGState {
    Idle,
    Round1Pending(Vec<Vec<u8>>),
    Round2Pending(Vec<Vec<u8>>),
}

/// The abstract state of a session: which round comes next, and the pending
/// secret of each key of the batch.
pub enum DkgPhase {
    Idle,
    Round1(Seq<Seq<u8>>),
    Round2(Seq<Seq<u8>>),
}

/// Byte strings as their views.
pub open spec fn secrets_view(s: Seq<Vec<u8>>) -> Seq<Seq<u8>> {
    s.map_values(|v: Vec<u8>| v@)
}

impl DKGState {
    pub open spec fn phase(&self) -> DkgPhase {
        match self {
            DKGState::Idle => DkgPhase::Idle,
            DKGState::Round1Pending(s) => DkgPhase::Round1(secrets_view(s@)),
            DKGState::Round2Pending(s) => DkgPhase::Round2(secrets_view(s@)),
        }
    }
}

/// Why round one is refused, checked in this order: threshold bounds, the
/// identifier, then a session already in progress.
pub open spec fn round1_refusal(identifier: Seq<char>, min_signers: u64, max_signers: u64, phase: DkgPhase) -> Option<Error> {
    if min_signers > max_signers || min_signers < 1 || max_signers > 65535 {
        Some(Error::InvalidThreshold)
    } else if identifier_of_hex(identifier) is None {
        Some(Error::InvalidIdentifier)
    } else if !(phase is Idle) {
        Some(Error::SessionActive)
    } else {
        None
    }
}

/// Why round two is refused: not awaiting round two, a key that names no
/// identifier, or a batch of another size than the pending one.
pub open spec fn round2_refusal(maps: Seq<PackageMap>, phase: DkgPhase) -> Option<Error> {
    match phase {
        DkgPhase::Round1(s) => if !package_maps_parse(maps) {
            Some(Error::InvalidIdentifier)
        } else if maps.len() != s.len() {
            Some(Error::BatchMismatch)
        } else {
            None
        },
        _ => Some(Error::WrongState),
    }
}

/// Why round three is refused: not awaiting round three, a key that names
/// no identifier, or batches of another size than the pending one.
pub open spec fn round3_refusal(maps1: Seq<PackageMap>, maps2: Seq<PackageMap>, phase: DkgPhase) -> Option<Error> {
    match phase {
        DkgPhase::Round2(s) => if !package_maps_parse(maps1) || !package_maps_parse(maps2) {
            Some(Error::InvalidIdentifier)
        } else if maps1.len() != s.len() || maps2.len() != s.len() {
            Some(Error::BatchMismatch)
        } else {
            None
        },
        _ => Some(Error::WrongState),
    }
}

/// Rounds asked for out of order are refused: round two or three while no
/// session is active, round one while one is.
pub proof fn lemma_out_of_order_rounds_refused(
    identifier: Seq<char>,
    min_signers: u64,
    max_signers: u64,
    maps1: Seq<PackageMap>,
    maps2: Seq<PackageMap>,
    phase: DkgPhase,
)
    ensures
        round2_refusal(maps1, DkgPhase::Idle) == Some(Error::WrongState),
        round3_refusal(maps1, maps2, DkgPhase::Idle) == Some(Error::WrongState),
        !(phase is Idle) ==> round1_refusal(identifier, min_signers, max_signers, phase) is Some,
{
}

/// A wire package map read as identifier bytes and package bytes.
pub open spec fn parsed_map(m: Seq<(String, Vec<u8>)>) -> Seq<(Seq<u8>, Seq<u8>)> {
    m.map_values(|e: (String, Vec<u8>)| (identifier_of_hex(e.0@)->0, e.1@))
}

/// The wire map `m` writes the identifier-keyed entries `p` in hex.
pub open spec fn wire_matches_pairs(m: Seq<(String, Vec<u8>)>, p: Seq<(Seq<u8>, Seq<u8>)>) -> bool {
    &&& m.len() == p.len()
    &&& forall|j: int| 0 <= j < p.len() ==> (#[trigger] m[j]).0@ == hex_of(p[j].0) && m[j].1@ == p[j].1
}

/// Round two of key `k`: part two on its pending secret and its parsed map.
pub open spec fn round2_of(secrets: Seq<Seq<u8>>, maps: Seq<PackageMap>, k: int) -> Option<(Seq<u8>, Seq<(Seq<u8>, Seq<u8>)>)> {
    dkg_part2_of(secrets[k], parsed_map(maps[k].packages@))
}

/// Round three of key `k`: the parts of the key package that part three
/// finishes from its pending secret and its parsed maps.
pub open spec fn round3_of(secrets: Seq<Seq<u8>>, maps1: Seq<PackageMap>, maps2: Seq<PackageMap>, k: int) -> Option<KeyParts> {
    match dkg_part3_of(secrets[k], parsed_map(maps1[k].packages@), parsed_map(maps2[k].packages@)) {
        Some(b) => key_parts_of(b),
        None => None,
    }
}

/// Key `k` of round two gave the pending secret `next[k]` and the wire map
/// `out[k]`.
pub open spec fn round2_done(s: Seq<Seq<u8>>, maps: Seq<PackageMap>, next: Seq<Seq<u8>>, out: Seq<PackageMap>, k: int) -> bool {
    match round2_of(s, maps, k) {
        Some(t) => next[k] == t.0 && wire_matches_pairs(out[k].packages@, t.1),
        None => false,
    }
}

/// Round two took the session from `before` to `after`, every key's part
/// two succeeding and giving its outgoing map in `out`.
pub open spec fn round2_success(before: DkgPhase, after: DkgPhase, maps: Seq<PackageMap>, out: Seq<PackageMap>) -> bool {
    match (before, after) {
        (DkgPhase::Round1(s), DkgPhase::Round2(next)) => {
            &&& out.len() == s.len()
            &&& next.len() == s.len()
            &&& forall|k: int| 0 <= k < s.len() ==> #[trigger] round2_done(s, maps, next, out, k)
        },
        _ => false,
    }
}

/// Part two fails for some key of the pending batch.
pub open spec fn round2_part_failed(before: DkgPhase, maps: Seq<PackageMap>) -> bool {
    match before {
        DkgPhase::Round1(s) => exists|k: int| 0 <= k < s.len() && (#[trigger] round2_of(s, maps, k)) is None,
        _ => false,
    }
}

/// Key `k` of round three finished into the wire key package `out[k]`.
pub open spec fn round3_done(s: Seq<Seq<u8>>, maps1: Seq<PackageMap>, maps2: Seq<PackageMap>, out: Seq<KeyPackage>, k: int) -> bool {
    match round3_of(s, maps1, maps2, k) {
        Some(parts) => key_package_matches_parts(out[k], parts),
        None => false,
    }
}

/// Round three finished every key of the batch pending in `before`.
pub open spec fn round3_success(before: DkgPhase, maps1: Seq<PackageMap>, maps2: Seq<PackageMap>, out: Seq<KeyPackage>) -> bool {
    match before {
        DkgPhase::Round2(s) => {
            &&& out.len() == s.len()
            &&& forall|k: int| 0 <= k < s.len() ==> #[trigger] round3_done(s, maps1, maps2, out, k)
        },
        _ => false,
    }
}

/// Part three fails for some key of the pending batch.
pub open spec fn round3_part_failed(before: DkgPhase, maps1: Seq<PackageMap>, maps2: Seq<PackageMap>) -> bool {
    match before {
        DkgPhase::Round2(s) => exists|k: int| 0 <= k < s.len() && (#[trigger] round3_of(s, maps1, maps2, k)) is None,
        _ => false,
    }
}

/// Entries read from a wire map, as byte strings, are the parsed map.
proof fn lemma_parsed_map(m: Seq<(String, Vec<u8>)>, r: Seq<(Vec<u8>, Vec<u8>)>)
    requires
        package_entries_match(m, r),
    ensures
        pairs_view(r) == parsed_map(m),
{
    assert(pairs_view(r) =~= parsed_map(m));
}

/// The single key-generation session of a signing node.
#[derive(Debug)]
pub struct FrostDKGState {
    state: DKGState,
}

impl View for FrostDKGState {
    type V = DkgPhase;

    closed spec fn view(&self) -> DkgPhase {
        self.state.phase()
    }
}

impl FrostDKGState {
    /// Every pending secret is one that key generation made for its round.
    #[verifier::type_invariant]
    spec fn secrets_sound(self) -> bool {
        match self.state {
            DKGState::Idle => true,
            DKGState::Round1Pending(s) => forall|k: int| 0 <= k < s@.len() ==> round1_secret_sound(#[trigger] s@[k]@),
            DKGState::Round2Pending(s) => forall|k: int| 0 <= k < s@.len() ==> round2_secret_sound(#[trigger] s@[k]@),
        }
    }

    /// A node with no session in progress.
    pub fn new() -> (r: FrostDKGState)
        ensures
            r@ is Idle,
    {
        FrostDKGState { state: DKGState::Idle }
    }

    /// Whether no session is in progress.
    pub fn is_idle(&self) -> (r: bool)
        ensures
            r == (self@ is Idle),
    {
        match self.state {
            DKGState::Idle => true,
            _ => false,
        }
    }

    /// Start a session of `key_count` independent keys: one round-one package
    /// per key to broadcast, the secrets kept for round two.
    #[verifier::loop_isolation(false)]
    pub fn dkg_round1(&mut self, identifier: &str, min_signers: u64, max_signers: u64, key_count: u64) -> (r: Result<Vec<Vec<u8>>, Error>)
        ensures
            match r {
                Ok(packages) => {
                    &&& round1_refusal(identifier@, min_signers, max_signers, old(self)@) is None
                    &&& packages@.len() == key_count
                    &&& final(self)@ is Round1
                &&& final(self)@->Round1_0.len() == key_count
                },
                Err(e) => {
                    &&& final(self)@ == old(self)@
                    &&& match round1_refusal(identifier@, min_signers, max_signers, old(self)@) {
                        Some(refusal) => e == refusal,
                        None => e == Error::Crypto(Stage::DkgPart1) && key_count > 0,
                    }
                },
            },
    {
        proof {
            use_type_invariant(&*self);
        }
        if min_signers > max_signers || min_signers < 1 || max_signers > 65535 {
            return Err(Error::InvalidThreshold);
        }
        let id = match hex_string_to_identifier(identifier) {
            Ok(id) => id,
            Err(e) => return Err(e),
        };
        if !self.is_idle() {
            return Err(Error::SessionActive);
        }
        let mut secrets: Vec<Vec<u8>> = Vec::new();
        let mut packages: Vec<Vec<u8>> = Vec::new();
        let mut i: u64 = 0;
        while i < key_count
            invariant
                i <= key_count,
                secrets@.len() == i,
                packages@.len() == i,
                forall|k: int| 0 <= k < secrets@.len() ==> round1_secret_sound(#[trigger] secrets@[k]@),
            decreases key_count - i,
        {
            match dkg_part1(id.as_slice(), max_signers as u16, min_signers as u16) {
                Some((secret, package)) => {
                    secrets.push(secret);
                    packages.push(package);
                },
                None => return Err(Error::Crypto(Stage::DkgPart1)),
            }
            i = i + 1;
        }
        self.state = DKGState::Round1Pending(secrets);
        Ok(packages)
    }

    /// Round two: for each pending key, the packages from the other
    /// participants go in, and one package per participant comes out.
    #[verifier::loop_isolation(false)]
    pub fn dkg_round2(&mut self, round1_packages_maps: &Vec<PackageMap>) -> (r: Result<Vec<PackageMap>, Error>)
        ensures
            match r {
                Ok(out) => {
                    &&& round2_refusal(round1_packages_maps@, old(self)@) is None
                    &&& round2_success(old(self)@, final(self)@, round1_packages_maps@, out@)
                },
                Err(e) => {
                    &&& final(self)@ == old(self)@
                    &&& match round2_refusal(round1_packages_maps@, old(self)@) {
                        Some(refusal) => e == refusal,
                        None => e == Error::Crypto(Stage::DkgPart2) && round2_part_failed(old(self)@, round1_packages_maps@),
                    }
                },
            },
    {
        proof {
            use_type_invariant(&*self);
        }
        let (next, out) = match &self.state {
            DKGState::Round1Pending(secrets) => {
                let ghost sv = secrets_view(secrets@);
                let maps = match round1_package_maps_from_package_maps(round1_packages_maps) {
                    Ok(m) => m,
                    Err(e) => return Err(e),
                };
                if maps.len() != secrets.len() {
                    return Err(Error::BatchMismatch);
                }
                let mut next: Vec<Vec<u8>> = Vec::new();
                let mut out: Vec<PackageMap> = Vec::new();
                let mut k: usize = 0;
                while k < secrets.len()
                    invariant
                        maps@.len() == secrets@.len(),
                        k <= secrets@.len(),
                        next@.len() == k,
                        out@.len() == k,
                        forall|i: int| 0 <= i < next@.len() ==> round2_secret_sound(#[trigger] next@[i]@),
                        forall|i: int|
                            0 <= i < k ==> #[trigger] round2_done(sv, round1_packages_maps@, secrets_view(next@), out@, i),
                    decreases secrets@.len() - k,
                {
                    proof {
                        lemma_parsed_map(round1_packages_maps@[k as int].packages@, maps@[k as int]@);
                    }
                    match dkg_part2(secrets[k].as_slice(), &maps[k]) {
                        Some((secret, packages)) => {
                            let wire = package_map_to_wire(&packages);
                            assert(wire_matches_pairs(wire.packages@, pairs_view(packages@)));
                            let ghost old_next = next@;
                            let ghost old_out = out@;
                            next.push(secret);
                            out.push(wire);
                            assert forall|i: int| 0 <= i <= k implies #[trigger] round2_done(
                                sv,
                                round1_packages_maps@,
                                secrets_view(next@),
                                out@,
                                i,
                            ) by {
                                if i < k {
                                    assert(round2_done(sv, round1_packages_maps@, secrets_view(old_next), old_out, i));
                                    assert(next@[i] == old_next[i]);
                                    assert(out@[i] == old_out[i]);
                                }
                            }
                        },
                        None => {
                            assert(round2_of(sv, round1_packages_maps@, k as int) is None);
                            return Err(Error::Crypto(Stage::DkgPart2));
                        },
                    }
                    k = k + 1;
                }
                (next, out)
            },
            _ => return Err(Error::WrongState),
        };
        self.state = DKGState::Round2Pending(next);
        Ok(out)
    }

    /// Round three: finish every pending key into a key package and end the
    /// session, discarding its secrets.
    #[verifier::loop_isolation(false)]
    pub fn dkg_round3(&mut self, round1_packages_maps: &Vec<PackageMap>, round2_packages_maps: &Vec<PackageMap>) -> (r: Result<Vec<KeyPackage>, Error>)
        ensures
            match r {
                Ok(out) => {
                    &&& round3_refusal(round1_packages_maps@, round2_packages_maps@, old(self)@) is None
                    &&& final(self)@ is Idle
                    &&& round3_success(old(self)@, round1_packages_maps@, round2_packages_maps@, out@)
                },
                Err(e) => {
                    &&& final(self)@ == old(self)@
                    &&& match round3_refusal(round1_packages_maps@, round2_packages_maps@, old(self)@) {
                        Some(refusal) => e == refusal,
                        None => e == Error::Crypto(Stage::DkgPart3) && round3_part_failed(old(self)@, round1_packages_maps@, round2_packages_maps@),
                    }
                },
            },
    {
        proof {
            use_type_invariant(&*self);
        }
        let out = match &self.state {
            DKGState::Round2Pending(secrets) => {
                let ghost sv = secrets_view(secrets@);
                let maps1 = match round1_package_maps_from_package_maps(round1_packages_maps) {
                    Ok(m) => m,
                    Err(e) => return Err(e),
                };
                let maps2 = match round2_package_maps_from_package_maps(round2_packages_maps) {
                    Ok(m) => m,
                    Err(e) => return Err(e),
                };
                if maps1.len() != secrets.len() || maps2.len() != secrets.len() {
                    return Err(Error::BatchMismatch);
                }
                let mut out: Vec<KeyPackage> = Vec::new();
                let mut k: usize = 0;
                while k < secrets.len()
                    invariant
                        maps1@.len() == secrets@.len(),
                        maps2@.len() == secrets@.len(),
                        k <= secrets@.len(),
                        out@.len() == k,
                        forall|i: int|
                            0 <= i < k ==> #[trigger] round3_done(sv, round1_packages_maps@, round2_packages_maps@, out@, i),
                    decreases secrets@.len() - k,
                {
                    proof {
                        lemma_parsed_map(round1_packages_maps@[k as int].packages@, maps1@[k as int]@);
                        lemma_parsed_map(round2_packages_maps@[k as int].packages@, maps2@[k as int]@);
                    }
                    let finished = match dkg_part3(secrets[k].as_slice(), &maps1[k], &maps2[k]) {
                        Some(b) => b,
                        None => {
                            assert(round3_of(sv, round1_packages_maps@, round2_packages_maps@, k as int) is None);
                            return Err(Error::Crypto(Stage::DkgPart3));
                        },
                    };
                    let share = match key_share_of(finished.as_slice()) {
                        Some(s) => s,
                        None => {
                            assert(round3_of(sv, round1_packages_maps@, round2_packages_maps@, k as int) is None);
                            return Err(Error::Crypto(Stage::DkgPart3));
                        },
                    };
                    let package = key_package_from_dkg_result(&share);
                    let ghost old_out = out@;
                    out.push(package);
                    assert(round3_of(sv, round1_packages_maps@, round2_packages_maps@, k as int) == Some(key_parts(share)));
                    assert forall|i: int| 0 <= i <= k implies #[trigger] round3_done(
                        sv,
                        round1_packages_maps@,
                        round2_packages_maps@,
                        out@,
                        i,
                    ) by {
                        if i < k {
                            assert(round3_done(sv, round1_packages_maps@, round2_packages_maps@, old_out, i));
                            assert(out@[i] == old_out[i]);
                        }
                    }
                    k = k + 1;
                }
                out
            },
            _ => return Err(Error::WrongState),
        };
        self.state = DKGState::Idle;
        Ok(out)
    }
}

} // verus!
