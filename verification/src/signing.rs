//! The EIP-712 typed-data hash over which worker and payer sign a work
//! agreement, and the check of their signatures.
//!
//! Domain: `EIP712Domain(string name,string version)` with name
//! "TIME Protocol" and version "1". Message: the agreement's fields other
//! than its signatures, as the struct type `WORK_AGREEMENT_TYPE` lists them.
//! The signed digest is `keccak256(0x19 0x01 ‖ domainSeparator ‖ hashStruct)`.
//!
//! This domain and this struct type are the module's own fixed choice; no
//! chain id or verifying contract is part of the domain. Off-chain signers
//! (worker and payer wallets) must sign exactly this domain and type, or every
//! agreement they publish is refused.
use vstd::prelude::*;
use vstd::utf8::encode_utf8;
use crate::trusted::{keccak256, keccak256_digest, recover_signer, recovered_signer};
use crate::types::{Address, B256, WorkAgreement};

verus! {

broadcast use vstd::array::group_array_axioms;

/// The EIP-712 domain type. Signers must use exactly this domain (see the
/// module doc).
pub open spec fn domain_type() -> Seq<char> {
    "EIP712Domain(string name,string version)"@
}

/// The EIP-712 domain name.
pub open spec fn domain_name() -> Seq<char> {
    "TIME Protocol"@
}

/// The EIP-712 domain version.
pub open spec fn domain_version() -> Seq<char> {
    "1"@
}

/// The EIP-712 struct type of a work agreement. Signers must sign exactly this
/// type, with the fields in this order, or the agreement is refused.
pub open spec fn work_agreement_type() -> Seq<char> {
    "WorkAgreement(bytes32 id,address worker,address payer,uint64 hoursWorkedScaled,address paymentToken,uint256 paymentAmount,string description,uint64 createdAt,uint64 expiresAt)"@
}

/// The Keccak-256 hash of a string's UTF-8 bytes.
pub open spec fn text_hash(text: Seq<char>) -> Seq<u8> {
    keccak256_digest(encode_utf8(text))
}

/// An address as an ABI word: twelve zero bytes, then the twenty bytes.
pub open spec fn address_word(address: Seq<u8>) -> Seq<u8> {
    Seq::new(12, |i: int| 0u8) + address
}

/// Byte `i` (0 the most significant) of the big-endian encoding of `v`.
pub open spec fn u64_be_byte(v: u64, i: int) -> u8 {
    ((v >> ((56 - 8 * i) as u64)) & 0xff) as u8
}

/// A `uint64` as an ABI word: twenty-four zero bytes, then its eight
/// big-endian bytes.
pub open spec fn u64_word(v: u64) -> Seq<u8> {
    Seq::new(24, |i: int| 0u8) + Seq::new(8, |i: int| u64_be_byte(v, i))
}

/// The EIP-712 domain separator.
pub open spec fn domain_separator() -> Seq<u8> {
    keccak256_digest(text_hash(domain_type()) + text_hash(domain_name()) + text_hash(domain_version()))
}

/// The EIP-712 `encodeData` of an agreement, behind its type hash.
pub open spec fn agreement_encoding(a: WorkAgreement) -> Seq<u8> {
    text_hash(work_agreement_type()) + a.id@ + address_word(a.worker@) + address_word(a.payer@)
        + u64_word(a.hours_worked_scaled) + address_word(a.payment_token@) + a.payment_amount@
        + text_hash(a.description@) + u64_word(a.created_at) + u64_word(a.expires_at)
}

/// The digest that the worker and the payer sign.
pub open spec fn signing_hash(a: WorkAgreement) -> Seq<u8> {
    keccak256_digest(seq![0x19u8, 0x01u8] + domain_separator() + keccak256_digest(agreement_encoding(a)))
}

/// Whether `signature` is a signature by `signer` over the agreement's signing
/// hash.
pub open spec fn signed_by(a: WorkAgreement, signature: Seq<u8>, signer: Seq<u8>) -> bool {
    recovered_signer(signing_hash(a), signature) == Some(signer)
}

fn push_all(out: &mut Vec<u8>, bytes: &[u8])
    ensures
        final(out)@ == old(out)@ + bytes@,
{
    let mut i: usize = 0;
    while i < bytes.len()
        invariant
            i <= bytes@.len(),
            out@ == old(out)@ + bytes@.subrange(0, i as int),
        decreases bytes@.len() - i,
    {
        out.push(bytes[i]);
        i = i + 1;
        assert(out@ =~= old(out)@ + bytes@.subrange(0, i as int));
    }
    assert(bytes@.subrange(0, i as int) =~= bytes@);
}

fn push_zeros(out: &mut Vec<u8>, n: usize)
    ensures
        final(out)@ == old(out)@ + Seq::new(n as nat, |i: int| 0u8),
{
    let mut i: usize = 0;
    while i < n
        invariant
            i <= n,
            out@ == old(out)@ + Seq::new(i as nat, |k: int| 0u8),
        decreases n - i,
    {
        out.push(0u8);
        i = i + 1;
        assert(out@ =~= old(out)@ + Seq::new(i as nat, |k: int| 0u8));
    }
}

fn push_address_word(out: &mut Vec<u8>, address: &Address)
    ensures
        final(out)@ == old(out)@ + address_word(address@),
{
    push_zeros(out, 12);
    push_all(out, address.as_slice());
    assert(out@ =~= old(out)@ + address_word(address@));
}

fn push_u64_word(out: &mut Vec<u8>, v: u64)
    ensures
        final(out)@ == old(out)@ + u64_word(v),
{
    push_zeros(out, 24);
    let ghost mid = out@;
    let mut i: u64 = 0;
    while i < 8
        invariant
            i <= 8,
            out@ == mid + Seq::new(i as nat, |k: int| u64_be_byte(v, k)),
        decreases 8 - i,
    {
        let byte: u8 = ((v >> (56 - 8 * i)) & 0xff) as u8;
        assert(byte == u64_be_byte(v, i as int));
        out.push(byte);
        i = i + 1;
        assert(out@ =~= mid + Seq::new(i as nat, |k: int| u64_be_byte(v, k)));
    }
    assert(out@ =~= old(out)@ + u64_word(v));
}

fn hash_text(text: &str) -> (hash: B256)
    ensures
        hash@ == text_hash(text@),
{
    keccak256(text.as_bytes())
}

/// The EIP-712 domain separator of TIME Protocol agreements.
pub fn agreement_domain_separator() -> (separator: B256)
    ensures
        separator@ == domain_separator(),
{
    let mut bytes: Vec<u8> = Vec::new();
    let t = hash_text("EIP712Domain(string name,string version)");
    push_all(&mut bytes, t.as_slice());
    let n = hash_text("TIME Protocol");
    push_all(&mut bytes, n.as_slice());
    let v = hash_text("1");
    push_all(&mut bytes, v.as_slice());
    keccak256(bytes.as_slice())
}

/// The EIP-712 digest that the worker and the payer of `agreement` sign.
pub fn agreement_signing_hash(agreement: &WorkAgreement) -> (hash: B256)
    ensures
        hash@ == signing_hash(*agreement),
{
    let mut enc: Vec<u8> = Vec::new();
    let t = hash_text(
        "WorkAgreement(bytes32 id,address worker,address payer,uint64 hoursWorkedScaled,address paymentToken,uint256 paymentAmount,string description,uint64 createdAt,uint64 expiresAt)",
    );
    push_all(&mut enc, t.as_slice());
    push_all(&mut enc, agreement.id.as_slice());
    push_address_word(&mut enc, &agreement.worker);
    push_address_word(&mut enc, &agreement.payer);
    push_u64_word(&mut enc, agreement.hours_worked_scaled);
    push_address_word(&mut enc, &agreement.payment_token);
    push_all(&mut enc, agreement.payment_amount.as_slice());
    let d = hash_text(agreement.description.as_str());
    push_all(&mut enc, d.as_slice());
    push_u64_word(&mut enc, agreement.created_at);
    push_u64_word(&mut enc, agreement.expires_at);
    assert(enc@ =~= agreement_encoding(*agreement));
    let struct_hash = keccak256(enc.as_slice());

    let mut msg: Vec<u8> = Vec::new();
    msg.push(0x19u8);
    msg.push(0x01u8);
    let ds = agreement_domain_separator();
    push_all(&mut msg, ds.as_slice());
    push_all(&mut msg, struct_hash.as_slice());
    assert(msg@ =~= seq![0x19u8, 0x01u8] + domain_separator() + keccak256_digest(agreement_encoding(*agreement)));
    keccak256(msg.as_slice())
}

/// Whether `signature` is a signature by `signer` over `digest`.
pub fn is_signed_by(digest: &B256, signature: &Vec<u8>, signer: &Address) -> (signed: bool)
    ensures
        signed == (recovered_signer(digest@, signature@) == Some(signer@)),
{
    match recover_signer(digest, signature.as_slice()) {
        Some(recovered) => {
            let same = same_address(&recovered, signer);
            same
        },
        None => false,
    }
}

fn same_address(a: &Address, b: &Address) -> (same: bool)
    ensures
        same == (a@ == b@),
{
    let mut i: usize = 0;
    while i < 20
        invariant
            0 <= i <= 20,
            a@.len() == 20,
            b@.len() == 20,
            forall|j: int| 0 <= j < i ==> a@[j] == b@[j],
        decreases 20 - i,
    {
        if a[i] != b[i] {
            return false;
        }
        i = i + 1;
    }
    assert(a@ =~= b@);
    true
}

/// A `uint64` word determines its value: distinct values give distinct words.
pub proof fn lemma_u64_word_injective(x: u64, y: u64)
    ensures
        u64_word(x) == u64_word(y) ==> x == y,
{
    if u64_word(x) == u64_word(y) {
        assert forall|i: int| 0 <= i < 8 implies u64_be_byte(x, i) == u64_be_byte(y, i) by {
            assert(u64_word(x)[24 + i] == u64_word(y)[24 + i]);
        }
        assert(u64_be_byte(x, 0) == u64_be_byte(y, 0));
        assert(u64_be_byte(x, 1) == u64_be_byte(y, 1));
        assert(u64_be_byte(x, 2) == u64_be_byte(y, 2));
        assert(u64_be_byte(x, 3) == u64_be_byte(y, 3));
        assert(u64_be_byte(x, 4) == u64_be_byte(y, 4));
        assert(u64_be_byte(x, 5) == u64_be_byte(y, 5));
        assert(u64_be_byte(x, 6) == u64_be_byte(y, 6));
        assert(u64_be_byte(x, 7) == u64_be_byte(y, 7));
        assert(x == y) by (bit_vector)
            requires
                ((x >> 56u64) & 0xff) as u8 == ((y >> 56u64) & 0xff) as u8,
                ((x >> 48u64) & 0xff) as u8 == ((y >> 48u64) & 0xff) as u8,
                ((x >> 40u64) & 0xff) as u8 == ((y >> 40u64) & 0xff) as u8,
                ((x >> 32u64) & 0xff) as u8 == ((y >> 32u64) & 0xff) as u8,
                ((x >> 24u64) & 0xff) as u8 == ((y >> 24u64) & 0xff) as u8,
                ((x >> 16u64) & 0xff) as u8 == ((y >> 16u64) & 0xff) as u8,
                ((x >> 8u64) & 0xff) as u8 == ((y >> 8u64) & 0xff) as u8,
                ((x >> 0u64) & 0xff) as u8 == ((y >> 0u64) & 0xff) as u8,
        ;
    }
}

/// Where each signed field stands in the EIP-712 encoding of an agreement,
/// behind the type hash (of length `l`): the id at `l`, then one 32-byte word
/// each for worker, payer (twelve zero bytes, then the address), hours,
/// payment token (zeros, then the address) and payment amount (its 32 bytes),
/// then the description hash, then the words of `created_at` and
/// `expires_at`, which end the encoding.
pub proof fn lemma_encoding_layout(a: WorkAgreement)
    ensures ({
        let e = agreement_encoding(a);
        let l = text_hash(work_agreement_type()).len() as int;
        let d = text_hash(a.description@).len() as int;
        &&& e.len() == l + 256 + d
        &&& e.subrange(0, l) == text_hash(work_agreement_type())
        &&& e.subrange(l, l + 32) == a.id@
        &&& (forall|i: int| l + 32 <= i < l + 44 ==> e[i] == 0u8)
        &&& e.subrange(l + 44, l + 64) == a.worker@
        &&& (forall|i: int| l + 64 <= i < l + 76 ==> e[i] == 0u8)
        &&& e.subrange(l + 76, l + 96) == a.payer@
        &&& e.subrange(l + 96, l + 128) == u64_word(a.hours_worked_scaled)
        &&& (forall|i: int| l + 128 <= i < l + 140 ==> e[i] == 0u8)
        &&& e.subrange(l + 140, l + 160) == a.payment_token@
        &&& e.subrange(l + 160, l + 192) == a.payment_amount@
        &&& e.subrange(l + 192, l + 192 + d) == text_hash(a.description@)
        &&& e.subrange(l + 192 + d, l + 224 + d) == u64_word(a.created_at)
        &&& e.subrange(l + 224 + d, l + 256 + d) == u64_word(a.expires_at)
    }),
{
    let e = agreement_encoding(a);
    let th = text_hash(work_agreement_type());
    let dh = text_hash(a.description@);
    let l = th.len() as int;
    let d = dh.len() as int;
    assert(a.id@.len() == 32);
    assert(a.worker@.len() == 20);
    assert(a.payer@.len() == 20);
    assert(a.payment_token@.len() == 20);
    assert(a.payment_amount@.len() == 32);
    assert(e.len() == l + 256 + d);
    assert(e.subrange(0, l) =~= th);
    assert(e.subrange(l, l + 32) =~= a.id@);
    assert(e.subrange(l + 44, l + 64) =~= a.worker@);
    assert(e.subrange(l + 76, l + 96) =~= a.payer@);
    assert(e.subrange(l + 96, l + 128) =~= u64_word(a.hours_worked_scaled));
    assert(e.subrange(l + 140, l + 160) =~= a.payment_token@);
    assert(e.subrange(l + 160, l + 192) =~= a.payment_amount@);
    assert(e.subrange(l + 192, l + 192 + d) =~= dh);
    assert(e.subrange(l + 192 + d, l + 224 + d) =~= u64_word(a.created_at));
    assert(e.subrange(l + 224 + d, l + 256 + d) =~= u64_word(a.expires_at));
}

/// The encoding that is hashed and signed determines every signed field: two
/// agreements with the same encoding have the same id, worker, payer, hours,
/// payment token, payment amount, description hash, creation and expiry time.
/// So an agreement whose signed fields change after signing has another
/// encoding, and another struct hash to sign.
pub proof fn lemma_encoding_determines_fields(a: WorkAgreement, b: WorkAgreement)
    requires
        agreement_encoding(a) == agreement_encoding(b),
    ensures
        a.id@ == b.id@,
        a.worker@ == b.worker@,
        a.payer@ == b.payer@,
        a.hours_worked_scaled == b.hours_worked_scaled,
        a.payment_token@ == b.payment_token@,
        a.payment_amount@ == b.payment_amount@,
        text_hash(a.description@) == text_hash(b.description@),
        a.created_at == b.created_at,
        a.expires_at == b.expires_at,
{
    lemma_encoding_layout(a);
    lemma_encoding_layout(b);
    lemma_u64_word_injective(a.hours_worked_scaled, b.hours_worked_scaled);
    lemma_u64_word_injective(a.created_at, b.created_at);
    lemma_u64_word_injective(a.expires_at, b.expires_at);
}

/// The digest that is signed is the EIP-712 digest of the encoding: the
/// `0x19 0x01` prefix, the domain separator, then the hash of the encoding,
/// hashed once more. Agreements that differ in a signed field are hashed from
/// different encodings.
pub proof fn lemma_signing_hash_covers_fields(a: WorkAgreement, b: WorkAgreement)
    requires
        a.id@ != b.id@ || a.worker@ != b.worker@ || a.payer@ != b.payer@
            || a.hours_worked_scaled != b.hours_worked_scaled || a.payment_token@ != b.payment_token@
            || a.payment_amount@ != b.payment_amount@ || a.created_at != b.created_at
            || a.expires_at != b.expires_at,
    ensures
        agreement_encoding(a) != agreement_encoding(b),
        signing_hash(a) == keccak256_digest(seq![0x19u8, 0x01u8] + domain_separator() + keccak256_digest(agreement_encoding(a))),
{
    if agreement_encoding(a) == agreement_encoding(b) {
        lemma_encoding_determines_fields(a, b);
    }
}

} // verus!
