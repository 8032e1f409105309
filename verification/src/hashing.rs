//! Content hashes and benchmark accounts, as the host runtime derives them.
//!
//! The digest itself is computed by `sp_runtime`; what it is on given bytes
//! has the name [`blake2_256`].

use vstd::prelude::*;

verus! {

/// A 256-bit content hash.
pub type CodeHash = [u8; 32];

/// A 32-byte account identifier.
pub type AccountId = [u8; 32];

/// The Blake2b digest of 256 bits of the given bytes.
pub uninterp spec fn blake2_256(data: Seq<u8>) -> Seq<u8>;

/// The account that `frame_benchmarking` derives from a name, an index and a
/// seed.
pub uninterp spec fn benchmark_account(name: Seq<char>, index: u32, seed: u32) -> Seq<u8>;

/// The four bytes of `value`, least significant first.
pub open spec fn spec_le_bytes(value: u32) -> Seq<u8> {
    seq![
        (value % 256) as u8,
        (value / 256 % 256) as u8,
        (value / 65536 % 256) as u8,
        (value / 16777216) as u8,
    ]
}

/// The four bytes of `value`, least significant first.
pub fn le_bytes(value: u32) -> (bytes: Vec<u8>)
    ensures
        bytes@ == spec_le_bytes(value),
{
    let mut bytes: Vec<u8> = Vec::new();
    bytes.push((value % 256) as u8);
    bytes.push((value / 256 % 256) as u8);
    bytes.push((value / 65536 % 256) as u8);
    bytes.push((value / 16777216) as u8);
    proof {
        assert(bytes@ =~= spec_le_bytes(value));
    }
    bytes
}

/// `sp_runtime::traits::Hash::hash` of `BlakeTwo256`: the digest of the given
/// bytes.
#[verifier::external_body]
pub(crate) fn hash(data: &Vec<u8>) -> (digest: CodeHash)
    ensures
        digest@ == blake2_256(data@),
{
    <sp_runtime::traits::BlakeTwo256 as sp_runtime::traits::Hash>::hash(data).to_fixed_bytes()
}

/// `sp_runtime::traits::Hash::hash_of` of `BlakeTwo256` on a 32-bit number:
/// the digest of the number's encoding, which is its four bytes, least
/// significant first.
#[verifier::external_body]
pub(crate) fn hash_of(value: u32) -> (digest: Vec<u8>)
    ensures
        digest@ == blake2_256(spec_le_bytes(value)),
{
    <sp_runtime::traits::BlakeTwo256 as sp_runtime::traits::Hash>::hash_of(&value).as_ref().to_vec()
}

/// `frame_benchmarking::account`: the account derived from a name, an index
/// and a seed.
#[verifier::external_body]
pub(crate) fn account(name: &'static str, index: u32, seed: u32) -> (id: AccountId)
    ensures
        id@ == benchmark_account(name@, index, seed),
{
    let id: sp_runtime::AccountId32 = frame_benchmarking::account(name, index, seed);
    id.into()
}

/// `sp_runtime::traits::StaticLookup::unlookup` of `IdentityLookup`: the
/// address under which the host looks an account up is the account itself.
#[verifier::external_body]
pub(crate) fn unlookup(id: AccountId) -> (address: AccountId)
    ensures
        address == id,
{
    let id: sp_runtime::AccountId32 = id.into();
    <sp_runtime::traits::IdentityLookup<sp_runtime::AccountId32> as sp_runtime::traits::StaticLookup>::unlookup(id).into()
}

} // verus!
