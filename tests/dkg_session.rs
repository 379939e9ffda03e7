use spark_frost::dkg::{key_package_from_dkg_result, round1_package_map_from_package_map, FrostDKGState};
use spark_frost::identifier::identifier_to_hex;
use spark_frost::primitives::KeyShare;
use spark_frost::wire::{Error, KeyPackage, PackageMap};

fn id_hex(n: u8) -> String {
    let mut s = "0".repeat(62);
    s.push_str(&format!("{:02x}", n));
    s
}

fn others(ids: &[String], me: usize, packages: &[Vec<u8>]) -> PackageMap {
    PackageMap {
        packages: ids
            .iter()
            .enumerate()
            .filter(|(j, _)| *j != me)
            .map(|(j, id)| (id.clone(), packages[j].clone()))
            .collect(),
    }
}

/// Runs a DKG among `ids` for `key_count` keys and returns each
/// participant's key packages.
fn run_dkg(ids: &[String], min: u64, key_count: u64) -> Vec<Vec<KeyPackage>> {
    let n = ids.len();
    let max = n as u64;
    let mut sessions: Vec<FrostDKGState> = (0..n).map(|_| FrostDKGState::new()).collect();
    let r1: Vec<Vec<Vec<u8>>> = (0..n)
        .map(|i| sessions[i].dkg_round1(&ids[i], min, max, key_count).unwrap())
        .collect();
    let mut r1_in: Vec<Vec<PackageMap>> = Vec::new();
    for i in 0..n {
        let maps: Vec<PackageMap> = (0..key_count as usize)
            .map(|k| {
                let per_key: Vec<Vec<u8>> = (0..n).map(|j| r1[j][k].clone()).collect();
                others(ids, i, &per_key)
            })
            .collect();
        r1_in.push(maps);
    }
    let r2: Vec<Vec<PackageMap>> = (0..n).map(|i| sessions[i].dkg_round2(&r1_in[i]).unwrap()).collect();
    let mut out = Vec::new();
    for i in 0..n {
        let r2_in: Vec<PackageMap> = (0..key_count as usize)
            .map(|k| PackageMap {
                packages: (0..n)
                    .filter(|j| *j != i)
                    .map(|j| {
                        let to_me = r2[j][k]
                            .packages
                            .iter()
                            .find(|(id, _)| *id == ids[i])
                            .unwrap()
                            .1
                            .clone();
                        (ids[j].clone(), to_me)
                    })
                    .collect(),
            })
            .collect();
        out.push(sessions[i].dkg_round3(&r1_in[i], &r2_in).unwrap());
        assert!(sessions[i].is_idle());
    }
    out
}

#[test]
fn dkg_participants_agree_on_the_group_key() {
    let ids = vec![id_hex(1), id_hex(2), id_hex(3)];
    let packages = run_dkg(&ids, 2, 2);
    assert_eq!(packages.len(), 3);
    for k in 0..2 {
        let key = &packages[0][k].public_key;
        assert_eq!(key.len(), 33);
        for p in &packages {
            assert_eq!(&p[k].public_key, key);
        }
    }
    assert_ne!(packages[0][0].public_key, packages[0][1].public_key);
    for (i, p) in packages.iter().enumerate() {
        for kp in p {
            assert_eq!(kp.identifier, ids[i]);
            assert_eq!(kp.secret_share.len(), 32);
            assert_eq!(kp.public_shares.len(), 1);
            assert_eq!(kp.public_shares[0].0, ids[i]);
            assert_eq!(kp.public_shares[0].1.len(), 33);
            assert_eq!(kp.min_signers, 2);
        }
    }
}

#[test]
fn round2_and_round3_refused_while_idle() {
    let mut s = FrostDKGState::new();
    assert_eq!(s.dkg_round2(&vec![]).unwrap_err(), Error::WrongState);
    assert_eq!(s.dkg_round3(&vec![], &vec![]).unwrap_err(), Error::WrongState);
    assert!(s.is_idle());
}

#[test]
fn round1_refused_while_a_session_is_active() {
    let mut s = FrostDKGState::new();
    let packages = s.dkg_round1(&id_hex(1), 2, 3, 1).unwrap();
    assert_eq!(packages.len(), 1);
    assert_eq!(s.dkg_round1(&id_hex(1), 2, 3, 1).unwrap_err(), Error::SessionActive);
    assert!(!s.is_idle());
    // round three is refused while round two is awaited, and the session stays
    assert_eq!(s.dkg_round3(&vec![], &vec![]).unwrap_err(), Error::WrongState);
    assert_eq!(s.dkg_round2(&vec![]).unwrap_err(), Error::BatchMismatch);
    assert!(!s.is_idle());
}

#[test]
fn round1_checks_threshold_bounds() {
    let mut s = FrostDKGState::new();
    assert_eq!(s.dkg_round1(&id_hex(1), 3, 2, 1).unwrap_err(), Error::InvalidThreshold);
    assert_eq!(s.dkg_round1(&id_hex(1), 0, 2, 1).unwrap_err(), Error::InvalidThreshold);
    assert_eq!(s.dkg_round1(&id_hex(1), 2, 65536, 1).unwrap_err(), Error::InvalidThreshold);
    assert_eq!(s.dkg_round1("zz", 2, 3, 1).unwrap_err(), Error::InvalidIdentifier);
    assert!(s.is_idle());
}

#[test]
fn round1_accepts_the_largest_group() {
    let mut s = FrostDKGState::new();
    assert_eq!(s.dkg_round1(&id_hex(1), 2, 65535, 1).unwrap().len(), 1);
}

#[test]
fn round1_with_zero_keys_opens_an_empty_session() {
    let mut s = FrostDKGState::new();
    assert_eq!(s.dkg_round1(&id_hex(1), 2, 3, 0).unwrap().len(), 0);
    assert!(!s.is_idle());
    assert_eq!(s.dkg_round2(&vec![]).unwrap().len(), 0);
    assert_eq!(s.dkg_round3(&vec![], &vec![]).unwrap().len(), 0);
    assert!(s.is_idle());
}

#[test]
fn round1_failure_of_the_primitive_keeps_the_session_idle() {
    let mut s = FrostDKGState::new();
    assert_eq!(s.dkg_round1(&id_hex(1), 1, 3, 1).unwrap_err(), Error::Crypto(spark_frost::wire::Stage::DkgPart1));
    assert!(s.is_idle());
}

#[test]
fn round2_refuses_a_bad_identifier_and_keeps_state() {
    let mut s = FrostDKGState::new();
    s.dkg_round1(&id_hex(1), 2, 3, 1).unwrap();
    let bad = vec![PackageMap { packages: vec![("xyz".to_string(), vec![1, 2, 3])] }];
    assert_eq!(s.dkg_round2(&bad).unwrap_err(), Error::InvalidIdentifier);
    assert_eq!(s.dkg_round2(&vec![]).unwrap_err(), Error::BatchMismatch);
    assert!(!s.is_idle());
}

#[test]
fn package_map_keys_read_as_identifiers() {
    let m = PackageMap { packages: vec![(id_hex(7), vec![9, 9])] };
    let v = round1_package_map_from_package_map(&m).unwrap();
    let mut id = vec![0u8; 32];
    id[31] = 7;
    assert_eq!(v, vec![(id, vec![9, 9])]);
}

#[test]
fn dkg_result_becomes_a_wire_key_package() {
    let share = KeyShare {
        identifier: vec![0u8; 31].into_iter().chain([5u8]).collect(),
        signing_share: vec![1u8; 32],
        verifying_share: vec![2u8; 33],
        verifying_key: vec![3u8; 33],
        min_signers: 4,
    };
    let kp = key_package_from_dkg_result(&share);
    assert_eq!(kp.identifier, id_hex(5));
    assert_eq!(kp.secret_share, vec![1u8; 32]);
    assert_eq!(kp.public_shares, vec![(id_hex(5), vec![2u8; 33])]);
    assert_eq!(kp.public_key, vec![3u8; 33]);
    assert_eq!(kp.min_signers, 4);
    assert_eq!(identifier_to_hex(&share.identifier), id_hex(5));
}
