use vstd::prelude::*;
use crate::state::{Authority, NftError};

verus! {

/// The SHA-256 digest of a byte string.
pub uninterp spec fn sha256_of(data: Seq<u8>) -> Seq<u8>;

/// Relies on `solana_program::hash::hash`: the SHA-256 digest of the bytes,
/// which depends on the bytes alone.
#[verifier::external_body]
fn sha256(data: &Vec<u8>) -> (r: [u8; 32])
    ensures
        r@ == sha256_of(data@),
{
    anchor_lang::solana_program::hash::hash(data.as_slice()).to_bytes()
}

/// The bytes of "account:Authority", whose digest marks the account type.
pub open spec fn authority_tag() -> Seq<u8> {
    seq![97u8, 99u8, 99u8, 111u8, 117u8, 110u8, 116u8, 58u8, 65u8, 117u8, 116u8, 104u8, 111u8, 114u8, 105u8, 116u8, 121u8]
}

/// The eight bytes that open the data of every authority account.
pub open spec fn authority_discriminator() -> Seq<u8> {
    sha256_of(authority_tag()).take(8)
}

/// The bytes allocated for an authority account: the discriminator and the
/// bump.
pub const AUTHORITY_SPACE: usize = 9;

/// The data of an authority account: the discriminator, then the bump.
pub open spec fn authority_data(a: Authority) -> Seq<u8> {
    authority_discriminator().push(a.bump)
}

/// What reading authority account data gives: a missing or foreign
/// discriminator, a missing bump, or the authority. Bytes after the bump
/// are ignored.
pub open spec fn authority_from_data(data: Seq<u8>) -> Result<Authority, NftError> {
    if data.len() < 8 {
        Err(NftError::AccountDiscriminatorNotFound)
    } else if data.take(8) != authority_discriminator() {
        Err(NftError::AccountDiscriminatorMismatch)
    } else if data.len() == 8 {
        Err(NftError::AccountDidNotDeserialize)
    } else {
        Ok(Authority { bump: data[8] })
    }
}

/// Computes the discriminator of authority accounts.
pub fn authority_discriminator_bytes() -> (r: Vec<u8>)
    ensures
        r@ == authority_discriminator(),
        r@.len() == 8,
{
    let tag: Vec<u8> = vec![
        97u8, 99u8, 99u8, 111u8, 117u8, 110u8, 116u8, 58u8, 65u8, 117u8, 116u8, 104u8, 111u8,
        114u8, 105u8, 116u8, 121u8,
    ];
    proof {
        assert(tag@ =~= authority_tag());
    }
    let digest = sha256(&tag);
    let mut r: Vec<u8> = Vec::new();
    let mut i: usize = 0;
    while i < 8
        invariant
            0 <= i <= 8,
            digest@.len() == 32,
            r@ == digest@.take(i as int),
        decreases 8 - i,
    {
        r.push(digest[i]);
        i = i + 1;
        proof {
            assert(r@ =~= digest@.take(i as int));
        }
    }
    r
}

/// Writes the data of an authority account.
pub fn encode_authority(a: &Authority) -> (r: Vec<u8>)
    ensures
        r@ == authority_data(*a),
        r@.len() == AUTHORITY_SPACE,
        authority_from_data(r@) == Ok::<Authority, NftError>(*a),
{
    let mut r = authority_discriminator_bytes();
    r.push(a.bump);
    proof {
        assert(r@.take(8) =~= authority_discriminator());
    }
    r
}

/// Reads the data of an authority account.
pub fn decode_authority(data: &Vec<u8>) -> (r: Result<Authority, NftError>)
    ensures
        r == authority_from_data(data@),
{
    if data.len() < 8 {
        return Err(NftError::AccountDiscriminatorNotFound);
    }
    let disc = authority_discriminator_bytes();
    let mut i: usize = 0;
    while i < 8
        invariant
            0 <= i <= 8,
            data@.len() >= 8,
            disc@ == authority_discriminator(),
            disc@.len() == 8,
            forall|j: int| 0 <= j < i ==> data@[j] == disc@[j],
        decreases 8 - i,
    {
        if data[i] != disc[i] {
            proof {
                assert(data@.take(8)[i as int] == data@[i as int]);
                assert(data@[i as int] != disc@[i as int]);
                assert(data@.take(8) != disc@) by {
                    if data@.take(8) == disc@ {
                        assert(data@.take(8)[i as int] == disc@[i as int]);
                    }
                }
            }
            return Err(NftError::AccountDiscriminatorMismatch);
        }
        i = i + 1;
    }
    proof {
        assert(data@.take(8) =~= disc@);
    }
    if data.len() == 8 {
        return Err(NftError::AccountDidNotDeserialize);
    }
    Ok(Authority { bump: data[8] })
}

} // verus!
