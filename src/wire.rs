use vstd::prelude::*;

verus! {

/// Which wire field a validation error is about.
#[derive(Debug, Clone, Copy, PartialEq, Eq, Structural)]
pub enum Field {
    SecretShare,
    PublicShare,
    VerifyingKey,
    Nonce,
    Commitment,
    UserCommitment,
    KeyPackage,
    SignatureShare,
    UserPublicKey,
}

/// Which cryptographic step failed.
#[derive(Debug, Clone, Copy, PartialEq, Eq, Structural)]
pub enum Stage {
    UserIdentifier,
    DkgPart1,
    DkgPart2,
    DkgPart3,
    Commit,
    KeyPackage,
    SigningPackage,
    Sign,
    PublicKeyPackage,
    Aggregate,
}

/// Errors of the library: validation, session state, and opaque failures of
/// the cryptographic primitives.
#[derive(Debug, Clone, Copy, PartialEq, Eq, Structural)]
pub enum Error {
    /// A byte field of the wrong length.
    InvalidLength(Field),
    /// A byte field of the right length that encodes no scalar below the
    /// group order, or no curve point.
    Malformed(Field),
    /// A required field is absent.
    Missing(Field),
    /// An identifier that is not 64 hex digits naming a nonzero scalar.
    InvalidIdentifier,
    /// The key package has no public share under its own identifier.
    OwnShareMissing,
    /// Threshold bounds out of range.
    InvalidThreshold,
    /// A signing role code other than operator or user.
    InvalidRole,
    /// Round one was asked for while a session is active.
    SessionActive,
    /// A round was asked for in the wrong session state.
    WrongState,
    /// The per-key batches do not match the pending secrets in number.
    BatchMismatch,
    /// A cryptographic primitive refused its input.
    Crypto(Stage),
}

/// A participant's secret nonce pair, as 32-byte scalars. Used for one
/// signature share only: it cannot be copied, and signing consumes it.
#[derive(Debug)]
pub struct SigningNonce {
    pub hiding: Vec<u8>,
    pub binding: Vec<u8>,
}

/// The public commitment to a nonce pair, as 33-byte compressed points.
#[derive(Debug, Clone)]
pub struct SigningCommitment {
    pub hiding: Vec<u8>,
    pub binding: Vec<u8>,
}

/// A fresh nonce pair and its commitment.
#[derive(Debug)]
pub struct NonceResult {
    pub nonce: SigningNonce,
    pub commitment: SigningCommitment,
}

/// A participant's key share on the wire: its hex identifier, the 32-byte
/// secret share, public shares keyed by hex identifier (33-byte points), the
/// 33-byte group public key, and the threshold. Keyed lists here and below
/// stand for maps, `entries_map`: a later entry for a key replaces an
/// earlier one, so a list with repeated keys means what its last entries say.
#[derive(Debug, Clone)]
pub struct KeyPackage {
    pub identifier: String,
    pub secret_share: Vec<u8>,
    pub public_shares: Vec<(String, Vec<u8>)>,
    pub public_key: Vec<u8>,
    pub min_signers: u16,
}

/// Serialized DKG packages keyed by the hex identifier of a participant.
#[derive(Debug, Clone)]
pub struct PackageMap {
    pub packages: Vec<(String, Vec<u8>)>,
}

/// The part a signer plays in a signing quorum.
#[derive(Debug, Clone, Copy, PartialEq, Eq, Structural)]
pub enum Role {
    Operator,
    User,
}

/// The role that a wire code names: 0 for an operator, 1 for the user.
pub open spec fn role_of_code(code: i32) -> Option<Role> {
    if code == 0 {
        Some(Role::Operator)
    } else if code == 1 {
        Some(Role::User)
    } else {
        None
    }
}

/// Read a signing role from its wire code.
pub fn role_from_code(code: i32) -> (r: Option<Role>)
    ensures
        r == role_of_code(code),
{
    if code == 0 {
        Some(Role::Operator)
    } else if code == 1 {
        Some(Role::User)
    } else {
        None
    }
}

/// A scalar field on the wire: exactly 32 bytes.
pub open spec fn scalar_sized(b: Seq<u8>) -> bool {
    b.len() == 32
}

/// A point field on the wire: exactly 33 bytes, compressed.
pub open spec fn point_sized(b: Seq<u8>) -> bool {
    b.len() == 33
}

} // verus!
