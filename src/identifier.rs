use vstd::prelude::*;
use frost_secp256k1_tr::Identifier;
use crate::hex_codec::{bytes_of_hex, decode_hex, encode_hex, hex_decodable, hex_of, lemma_hex_round_trip};
use crate::primitives::{be_value, scalar_accepted};
use crate::wire::{Error, Stage};

verus! {

/// Whether bytes encode a valid participant identifier: a canonical scalar
/// (32 big-endian bytes below the group order) other than zero.
pub open spec fn identifier_accepted(b: Seq<u8>) -> bool {
    scalar_accepted(b) && be_value(b) != 0
}

/// The 32-byte identifier that a tag hashes to, when it is nonzero.
pub uninterp spec fn identifier_derived(tag: Seq<u8>) -> Option<Seq<u8>>;

/// Relies on Identifier::deserialize: k256's Scalar::from_repr reads 32
/// big-endian bytes below the group order, and Identifier::new refuses zero.
#[verifier::external_body]
fn identifier_bytes_ok(b: &[u8]) -> (r: bool)
    ensures
        r == identifier_accepted(b@),
{
    Identifier::deserialize(b).is_ok()
}

/// Relies on Identifier::derive, a hash of the tag to a scalar, and on
/// Identifier::serialize, whose encoding is a `[u8; 32]`.
#[verifier::external_body]
fn derive_identifier(tag: &[u8]) -> (r: Option<Vec<u8>>)
    ensures
        r matches Some(v) ==> identifier_derived(tag@) == Some(v@) && v@.len() == 32,
        r is None ==> identifier_derived(tag@) is None,
{
    Identifier::derive(tag).ok().map(|i| i.serialize())
}

/// The domain-separation tag of the reserved user identifier.
pub open spec fn user_tag() -> Seq<u8> {
    seq![117u8, 115u8, 101u8, 114u8]
}

/// The reserved identifier of the user share.
pub open spec fn user_identifier_spec() -> Option<Seq<u8>> {
    identifier_derived(user_tag())
}

/// The identifier that a wire string names: 64 hex digits whose 32 bytes are
/// an accepted scalar.
pub open spec fn identifier_of_hex(s: Seq<char>) -> Option<Seq<u8>> {
    if hex_decodable(s) && bytes_of_hex(s).len() == 32 && identifier_accepted(bytes_of_hex(s)) {
        Some(bytes_of_hex(s))
    } else {
        None
    }
}

/// An identifier written in its wire form reads back as itself.
pub proof fn lemma_identifier_hex_round_trip(b: Seq<u8>)
    requires
        b.len() == 32,
        identifier_accepted(b),
    ensures
        identifier_of_hex(hex_of(b)) == Some(b),
{
    lemma_hex_round_trip(b);
}

/// Convert a hex string to an identifier's 32 bytes.
pub fn hex_string_to_identifier(identifier: &str) -> (r: Result<Vec<u8>, Error>)
    ensures
        match r {
            Ok(v) => identifier_of_hex(identifier@) == Some(v@),
            Err(e) => identifier_of_hex(identifier@) is None && e == Error::InvalidIdentifier,
        },
{
    let bytes = match decode_hex(identifier) {
        Some(b) => b,
        None => return Err(Error::InvalidIdentifier),
    };
    if bytes.len() != 32 {
        return Err(Error::InvalidIdentifier);
    }
    if !identifier_bytes_ok(bytes.as_slice()) {
        return Err(Error::InvalidIdentifier);
    }
    Ok(bytes)
}

/// The reserved user identifier, derived from the tag "user".
pub fn user_identifier() -> (r: Result<Vec<u8>, Error>)
    ensures
        match r {
            Ok(v) => user_identifier_spec() == Some(v@) && v@.len() == 32,
            Err(e) => user_identifier_spec() is None && e == Error::Crypto(Stage::UserIdentifier),
        },
{
    let tag: Vec<u8> = vec![117u8, 115u8, 101u8, 114u8];
    assert(tag@ == user_tag());
    match derive_identifier(tag.as_slice()) {
        Some(v) => Ok(v),
        None => Err(Error::Crypto(Stage::UserIdentifier)),
    }
}

/// The wire form of an identifier: its bytes in lowercase hex.
pub fn identifier_to_hex(identifier: &Vec<u8>) -> (r: String)
    ensures
        r@ == hex_of(identifier@),
{
    encode_hex(identifier.as_slice())
}

} // verus!
