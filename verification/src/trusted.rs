//! The library's contact points with code that Verus does not read: the
//! Keccak-256 hash, secp256k1 signer recovery and the decimal rendering of 256-bit integers from
//! `alloy_primitives`, the system clock, and `anyhow`'s error type.
use vstd::prelude::*;

verus! {

/// The Keccak-256 digest of a byte string, as `alloy_primitives::keccak256`
/// computes it.
pub uninterp spec fn keccak256_digest(data: Seq<u8>) -> Seq<u8>;

/// Calls `alloy_primitives::keccak256` on `data` and hands back the 32 bytes of
/// the resulting `B256`. Claimed: the digest depends on `data` alone and is the
/// value named `keccak256_digest(data)`.
#[verifier::external_body]
pub(crate) fn keccak256(data: &[u8]) -> (digest: [u8; 32])
    ensures
        digest@ == keccak256_digest(data@),
{
    alloy_primitives::keccak256(data).0
}

/// The address that `alloy_primitives` recovers from a 65-byte secp256k1
/// signature (`r`, `s`, `v`) over a 32-byte prehash, if recovery succeeds.
pub uninterp spec fn recovered_signer(prehash: Seq<u8>, signature: Seq<u8>) -> Option<Seq<u8>>;

/// Parses `signature` with `alloy_primitives::Signature::from_raw` (which
/// refuses anything but 65 bytes, and a bad `v`) and calls
/// `Signature::recover_address_from_prehash` on `prehash`; an error of either
/// becomes `None`. Claimed: the outcome depends on the two byte strings alone
/// and is the value named `recovered_signer(prehash, signature)`; a signature
/// that is not 65 bytes long recovers nothing.
#[verifier::external_body]
pub(crate) fn recover_signer(prehash: &[u8; 32], signature: &[u8]) -> (signer: Option<[u8; 20]>)
    ensures
        signature@.len() != 65 ==> signer is None,
        signer is None ==> recovered_signer(prehash@, signature@) is None,
        signer matches Some(a) ==> recovered_signer(prehash@, signature@) == Some(a@),
{
    match alloy_primitives::Signature::from_raw(signature) {
        Ok(sig) => match sig.recover_address_from_prehash(&alloy_primitives::B256::from(*prehash)) {
            Ok(address) => Some(address.into_array()),
            Err(_) => None,
        },
        Err(_) => None,
    }
}

/// The unsigned integer that a big-endian byte string encodes.
pub open spec fn be_value(bytes: Seq<u8>) -> nat
    decreases bytes.len(),
{
    if bytes.len() == 0 {
        0
    } else {
        be_value(bytes.drop_last()) * 256 + bytes.last() as nat
    }
}

/// The ASCII digit for `d` (taken below ten).
pub open spec fn decimal_digit(d: nat) -> char {
    (48 + d) as char
}

/// The decimal rendering of `n`: no sign, no leading zeros, "0" for zero.
pub open spec fn decimal(n: nat) -> Seq<char>
    decreases n,
{
    if n < 10 {
        seq![decimal_digit(n)]
    } else {
        decimal(n / 10).push(decimal_digit(n % 10))
    }
}

/// Builds `alloy_primitives::U256` from 32 big-endian bytes
/// (`U256::from_be_bytes`, which cannot fail for 32 bytes) and renders it with
/// its `Display` impl, which writes the plain decimal digits of the value.
/// Claimed: the string is `decimal(be_value(bytes))`.
#[verifier::external_body]
pub(crate) fn u256_decimal(be_bytes: &[u8; 32]) -> (s: String)
    ensures
        s@ == decimal(be_value(be_bytes@)),
{
    alloy_primitives::U256::from_be_bytes(*be_bytes).to_string()
}

/// Reads the system clock through `std::time::SystemTime::elapsed` on
/// `UNIX_EPOCH` and returns whole seconds (`Duration::as_secs`), 0 where the
/// clock reads before the epoch. Nothing is claimed of the value: it is
/// whatever the clock says.
#[verifier::external_body]
pub(crate) fn unix_time_secs() -> (secs: u64) {
    std::time::UNIX_EPOCH.elapsed().unwrap_or_default().as_secs()
}

/// `anyhow::Error`, carried opaque inside the library's error type.
#[verifier::external_type_specification]
#[verifier::external_body]
pub struct ExAnyhowError(anyhow::Error);

} // verus!
