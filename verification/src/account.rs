//! Accounts: identifiers, keys, commitments, nullifiers and addresses.
use vstd::arithmetic::div_mod::lemma_small_mod;
use vstd::prelude::*;
use vstd::string::StringSliceAdditionalSpecFns;

use crate::ast::{ast_root, AccountStateTree};
use crate::bytes::{lemma_u64_le_roundtrip, read_u64_le, u64_le, u64_of_le, write_u64_le};
use crate::field::F;
use crate::hash::{digest, hash_no_pad, is_sponge, HashOutput};
use crate::params::{
    DEFAULT_ACC_COMM_CONSUME_PK_PLACEHOLDER, DEFAULT_SPEND_AUTH_PK, DS_NULLIFIER_KEY,
    DS_PUBLIC_IDENTIFIER,
};
use crate::primes::goldilocks;
use crate::schnorr::{CompPubKey, CompressedPublicKey};

verus! {

/// Commitment to an account state.
#[derive(Clone, Copy, Debug, PartialEq, Eq, Structural)]
pub struct AccountCommitment(pub HashOutput);

/// Spend-once tag for an account, derived from its commitment and nullifier key.
#[derive(Clone, Copy, Debug, PartialEq, Eq, Structural)]
pub struct AccountNullifier(pub HashOutput);

/// Secret key used to derive note and account nullifiers.
#[derive(Clone, Copy, Debug, PartialEq, Eq, Structural)]
pub struct NullifierKey(pub HashOutput);

/// Secret 2-field-element identifier that seeds all account-specific values.
#[derive(Clone, Copy, Debug, PartialEq, Eq, Structural, Hash)]
pub struct PrivateIdentifier(pub F, pub F);

/// The public, on-chain-visible identifier for an account.
#[derive(Clone, Copy, Debug, PartialEq, Eq, Structural)]
pub struct PublicIdentifier(pub HashOutput);

/// Identifies which subpool an account belongs to.
#[derive(Clone, Copy, Debug, PartialEq, Eq, Structural)]
pub struct SubpoolId(pub F);

/// Monotonically-increasing counter included in every account commitment.
#[derive(Clone, Copy, Debug, PartialEq, Eq, Structural)]
pub struct Nonce(pub F);

impl Nonce {
    /// The nonce one higher.
    pub fn incremented(self) -> (r: Self)
        ensures
            r.0 == self.0.spec_add(F::of(1)),
    {
        Nonce(self.0 + F::one())
    }
}

/// Authorization data for *spending* notes out of an account.
#[derive(Clone, Copy, Debug, PartialEq, Eq, Structural)]
pub struct SpendAuth {
    pub spend_pk: Option<CompPubKey>,
}

/// Authorization data for *consuming* (depositing into) an account.
#[derive(Clone, Copy, Debug, PartialEq, Eq, Structural)]
pub struct ConsumeAuth {
    /// If `false`, consume is delegated to the subpool owner's key.
    /// If `true`, consume requires a signature from `self.pk`.
    pub config: bool,
    /// The account's own consume public key.
    /// `None` only when `config == false` (delegation mode).
    pub pk: Option<CompPubKey>,
}

impl SpendAuth {
    /// No spend key.
    pub fn unset() -> (r: Self)
        ensures
            r.spend_pk is None,
    {
        SpendAuth { spend_pk: None }
    }
}

impl ConsumeAuth {
    /// Consume is delegated to the subpool, and there is no own key.
    pub fn delegated() -> (r: Self)
        ensures
            !r.config,
            r.pk is None,
    {
        ConsumeAuth { config: false, pk: None }
    }

    /// Whether an own key is there where one is needed.
    pub open spec fn valid(self) -> bool {
        self.config ==> self.pk is Some
    }

    /// Whether a key is there where one is needed.
    pub fn is_valid(&self) -> (r: bool)
        ensures
            r == self.valid(),
    {
        !self.config || self.pk.is_some()
    }
}

/// The coefficients of a key given as integers.
pub open spec fn key_elements(v: [u64; 5]) -> Seq<F> {
    seq![
        F::of(v[0] as int),
        F::of(v[1] as int),
        F::of(v[2] as int),
        F::of(v[3] as int),
        F::of(v[4] as int),
    ]
}

/// A fully-materialised account held by a client.
///
/// # State lifecycle
/// 1. **Pre-activation** - `nonce=0`, no `spend_pk`, no `consume_pk` set.
/// 2. **Active** - after a FreshAcc transaction sets the auth keys.
/// 3. **Each transaction** copies the account, increments the nonce, and
///    optionally updates balances or auth keys, producing a new commitment.
pub struct StandardAccount {
    pub private_identifier: PrivateIdentifier,
    pub subpool_id: SubpoolId,
    pub nonce: Nonce,
    pub spend_auth: SpendAuth,
    pub consume_auth: ConsumeAuth,
    /// Per-asset balance Merkle tree.
    pub ast: AccountStateTree,
}

/// What the public identifier is the hash of.
pub open spec fn public_id_preimage(id: PrivateIdentifier) -> Seq<F> {
    seq![F::of(DS_PUBLIC_IDENTIFIER as int), id.0, id.1]
}

/// What the nullifier key is the hash of.
pub open spec fn nullifier_key_preimage(id: PrivateIdentifier) -> Seq<F> {
    seq![F::of(DS_NULLIFIER_KEY as int), id.0, id.1]
}

/// The spend key as it stands in the commitment.
pub open spec fn spend_key_elements(a: SpendAuth) -> Seq<F> {
    match a.spend_pk {
        Some(pk) => pk.elements(),
        None => key_elements(DEFAULT_SPEND_AUTH_PK),
    }
}

/// The consume authorization as it stands in the commitment: a flag and a key.
pub open spec fn consume_auth_elements(a: ConsumeAuth) -> Seq<F> {
    if a.config {
        seq![F::of(1)] + a.pk->0.elements()
    } else {
        seq![F::of(0)] + key_elements(DEFAULT_ACC_COMM_CONSUME_PK_PLACEHOLDER)
    }
}

/// The hash input of an account commitment (19 field elements):
/// `private_identifier[2] || subpool_id[1] || ast_root[4] || nonce[1]
/// || spend_pk[5] || consume_auth.config[1] || consume_auth.pk[5]`.
pub open spec fn account_preimage(
    id: PrivateIdentifier,
    subpool: SubpoolId,
    root: HashOutput,
    nonce: Nonce,
    spend: SpendAuth,
    consume: ConsumeAuth,
) -> Seq<F> {
    seq![id.0, id.1, subpool.0] + root.elements() + seq![nonce.0] + spend_key_elements(spend)
        + consume_auth_elements(consume)
}

/// What the account nullifier is the hash of.
pub open spec fn account_nullifier_preimage(c: HashOutput, nk: HashOutput) -> Seq<F> {
    c.elements() + nk.elements()
}

impl StandardAccount {
    /// Whether the state tree is the one over its balances, and a consume key is
    /// there where one is needed.
    pub open spec fn wf<H: Fn(Vec<F>, usize) -> Vec<F>>(&self, h: H) -> bool {
        self.ast.wf(h) && self.ast.shape() && self.consume_auth.valid()
    }

    /// The hash input of the commitment.
    pub open spec fn preimage(&self) -> Seq<F> {
        account_preimage(
            self.private_identifier,
            self.subpool_id,
            self.ast.top(),
            self.nonce,
            self.spend_auth,
            self.consume_auth,
        )
    }

    /// The commitment.
    pub open spec fn spec_commitment<H: Fn(Vec<F>, usize) -> Vec<F>>(&self, h: H) -> HashOutput {
        digest(h, self.preimage())
    }

    /// The nullifier key.
    pub open spec fn spec_nk<H: Fn(Vec<F>, usize) -> Vec<F>>(&self, h: H) -> HashOutput {
        digest(h, nullifier_key_preimage(self.private_identifier))
    }

    /// The public identifier.
    pub open spec fn spec_public_id<H: Fn(Vec<F>, usize) -> Vec<F>>(&self, h: H) -> HashOutput {
        digest(h, public_id_preimage(self.private_identifier))
    }

    /// The nullifier.
    pub open spec fn spec_nullifier<H: Fn(Vec<F>, usize) -> Vec<F>>(&self, h: H) -> HashOutput {
        digest(h, account_nullifier_preimage(self.spec_commitment(h), self.spec_nk(h)))
    }

    /// Whether the account is in the pre-activation state.
    pub open spec fn spec_is_fresh(&self) -> bool {
        &&& self.nonce.0@ == 0
        &&& self.spend_auth.spend_pk is None
        &&& !self.consume_auth.config
        &&& self.consume_auth.pk is None
        &&& self.ast@.len() == 0
    }

    /// A padding account with a fixed identifier in subpool zero.
    pub fn fake<H: Fn(Vec<F>, usize) -> Vec<F>>(h: &H) -> (r: Self)
        requires
            is_sponge(*h),
        ensures
            r.wf(*h),
            r.spec_is_fresh(),
            r.private_identifier == PrivateIdentifier(F::of(1), F::of(2)),
            r.subpool_id == SubpoolId(F::of(0)),
    {
        Self::new_with(
            h,
            PrivateIdentifier(F::from_canonical_u64(1), F::from_canonical_u64(2)),
            SubpoolId(F::zero()),
        )
    }

    /// Create a fresh account with an explicit private identifier and zero
    /// balances.
    pub fn new_with<H: Fn(Vec<F>, usize) -> Vec<F>>(
        h: &H,
        private_identifier: PrivateIdentifier,
        subpool_id: SubpoolId,
    ) -> (r: Self)
        requires
            is_sponge(*h),
        ensures
            r.wf(*h),
            r.spec_is_fresh(),
            r.private_identifier == private_identifier,
            r.subpool_id == subpool_id,
    {
        StandardAccount {
            private_identifier,
            subpool_id,
            nonce: Nonce(F::zero()),
            spend_auth: SpendAuth::unset(),
            consume_auth: ConsumeAuth::delegated(),
            ast: AccountStateTree::new(h),
        }
    }

    /// Whether all but the nonce is as in another account.
    pub open spec fn same_but_nonce(&self, other: &Self) -> bool {
        &&& self.private_identifier == other.private_identifier
        &&& self.subpool_id == other.subpool_id
        &&& self.spend_auth == other.spend_auth
        &&& self.consume_auth == other.consume_auth
        &&& self.ast.same_as(&other.ast)
        &&& self.ast@ == other.ast@
        &&& self.ast.top() == other.ast.top()
        &&& self.ast.shape() == other.ast.shape()
    }

    /// Copy this account with the nonce incremented by one.
    pub fn clone_with_incremented_nonce(&self) -> (r: Self)
        requires
            self.ast.shape(),
        ensures
            r.same_but_nonce(self),
            r.nonce.0 == self.nonce.0.spec_add(F::of(1)),
    {
        StandardAccount {
            private_identifier: self.private_identifier,
            subpool_id: self.subpool_id,
            nonce: self.nonce.incremented(),
            spend_auth: self.spend_auth,
            consume_auth: self.consume_auth,
            ast: self.ast.duplicate(),
        }
    }

    /// A copy of the account.
    pub fn duplicate(&self) -> (r: Self)
        requires
            self.ast.shape(),
        ensures
            r.same_but_nonce(self),
            r.nonce == self.nonce,
    {
        StandardAccount {
            private_identifier: self.private_identifier,
            subpool_id: self.subpool_id,
            nonce: self.nonce,
            spend_auth: self.spend_auth,
            consume_auth: self.consume_auth,
            ast: self.ast.duplicate(),
        }
    }

    /// The consume public key, or the placeholder if unset.
    pub fn consume_pk_or_default(&self) -> (r: CompPubKey)
        ensures
            r.elements() == (match self.consume_auth.pk {
                Some(pk) => pk.elements(),
                None => key_elements(DEFAULT_ACC_COMM_CONSUME_PK_PLACEHOLDER),
            }),
    {
        match self.consume_auth.pk {
            Some(pk) => pk,
            None => {
                let r = CompressedPublicKey::from_canonical_u64s(
                    DEFAULT_ACC_COMM_CONSUME_PK_PLACEHOLDER,
                );
                assert(r.elements() =~= key_elements(DEFAULT_ACC_COMM_CONSUME_PK_PLACEHOLDER));
                r
            },
        }
    }

    /// The spend public key, or the default key if unset.
    pub fn spend_pk_or_default(&self) -> (r: CompPubKey)
        ensures
            r.elements() == spend_key_elements(self.spend_auth),
    {
        match self.spend_auth.spend_pk {
            Some(pk) => pk,
            None => {
                let r = CompressedPublicKey::from_canonical_u64s(DEFAULT_SPEND_AUTH_PK);
                assert(r.elements() =~= key_elements(DEFAULT_SPEND_AUTH_PK));
                r
            },
        }
    }

    /// The shareable address of the account.
    pub fn address<H: Fn(Vec<F>, usize) -> Vec<F>>(&self, h: &H) -> (r: AccountAddress)
        requires
            is_sponge(*h),
        ensures
            r == (AccountAddress {
                subpool_id: self.subpool_id,
                public_id: PublicIdentifier(self.spec_public_id(*h)),
            }),
    {
        AccountAddress::from_acc(h, self)
    }

    /// Derive the public identifier for this account:
    /// `public_id = H(DS_PUBLIC_IDENTIFIER || private_identifier)`.
    pub fn public_id<H: Fn(Vec<F>, usize) -> Vec<F>>(&self, h: &H) -> (r: PublicIdentifier)
        requires
            is_sponge(*h),
        ensures
            r.0 == self.spec_public_id(*h),
    {
        let mut v: Vec<F> = Vec::new();
        v.push(F::from_canonical_u64(DS_PUBLIC_IDENTIFIER));
        v.push(self.private_identifier.0);
        v.push(self.private_identifier.1);
        assert(v@ =~= public_id_preimage(self.private_identifier));
        PublicIdentifier(hash_no_pad(h, v))
    }

    /// Derive the nullifier key for this account:
    /// `nk = H(DS_NULLIFIER_KEY || private_identifier)`.
    pub fn nk<H: Fn(Vec<F>, usize) -> Vec<F>>(&self, h: &H) -> (r: NullifierKey)
        requires
            is_sponge(*h),
        ensures
            r.0 == self.spec_nk(*h),
    {
        let mut v: Vec<F> = Vec::new();
        v.push(F::from_canonical_u64(DS_NULLIFIER_KEY));
        v.push(self.private_identifier.0);
        v.push(self.private_identifier.1);
        assert(v@ =~= nullifier_key_preimage(self.private_identifier));
        NullifierKey(hash_no_pad(h, v))
    }

    /// Compute the commitment to this account's full state.
    pub fn commitment<H: Fn(Vec<F>, usize) -> Vec<F>>(&self, h: &H) -> (r: AccountCommitment)
        requires
            is_sponge(*h),
            self.ast.shape(),
            self.consume_auth.valid(),
        ensures
            r.0 == self.spec_commitment(*h),
    {
        let mut v: Vec<F> = Vec::new();
        v.push(self.private_identifier.0);
        v.push(self.private_identifier.1);
        v.push(self.subpool_id.0);
        self.ast.root().append_to(&mut v);
        v.push(self.nonce.0);
        self.spend_pk_or_default().append_to(&mut v);
        if self.consume_auth.config {
            v.push(F::one());
            self.consume_pk_or_default().append_to(&mut v);
        } else {
            v.push(F::zero());
            let placeholder = CompressedPublicKey::from_canonical_u64s(
                DEFAULT_ACC_COMM_CONSUME_PK_PLACEHOLDER,
            );
            assert(placeholder.elements() =~= key_elements(DEFAULT_ACC_COMM_CONSUME_PK_PLACEHOLDER));
            placeholder.append_to(&mut v);
        }
        assert(v@ =~= self.preimage());
        AccountCommitment(hash_no_pad(h, v))
    }

    /// Compute the nullifier: `H(commitment || nk)`.
    pub fn nullifier<H: Fn(Vec<F>, usize) -> Vec<F>>(&self, h: &H) -> (r: AccountNullifier)
        requires
            is_sponge(*h),
            self.ast.shape(),
            self.consume_auth.valid(),
        ensures
            r.0 == self.spec_nullifier(*h),
    {
        let mut v: Vec<F> = Vec::new();
        self.commitment(h).0.append_to(&mut v);
        self.nk(h).0.append_to(&mut v);
        assert(v@ =~= account_nullifier_preimage(self.spec_commitment(*h), self.spec_nk(*h)));
        AccountNullifier(hash_no_pad(h, v))
    }

    /// Whether the account is in the pre-activation (fresh) state: nonce zero, no
    /// spend key, consume delegated and without own key, no assets.
    pub fn is_fresh(&self) -> (r: bool)
        ensures
            r == self.spec_is_fresh(),
    {
        self.nonce.0.is_zero() && self.spend_auth.spend_pk.is_none() && !self.consume_auth.config
            && self.consume_auth.pk.is_none() && self.ast.size() == 0
    }

    /// The commitment of a well-formed account commits to its balances.
    pub proof fn lemma_commitment_binds<H: Fn(Vec<F>, usize) -> Vec<F>>(&self, h: H)
        requires
            self.wf(h),
        ensures
            self.spec_commitment(h) == digest(
                h,
                account_preimage(
                    self.private_identifier,
                    self.subpool_id,
                    ast_root(h, self.ast@),
                    self.nonce,
                    self.spend_auth,
                    self.consume_auth,
                ),
            ),
    {
        self.ast.lemma_wf(h);
    }

    /// A copy of a well-formed account is well-formed.
    pub proof fn lemma_copy_wf<H: Fn(Vec<F>, usize) -> Vec<F>>(&self, other: &Self, h: H)
        requires
            self.same_but_nonce(other),
            other.wf(h),
        ensures
            self.wf(h),
    {
        self.ast.lemma_same_wf(&other.ast, h);
    }
}

/// The public address shared with counterparties so they can target notes.
#[derive(Clone, Copy, Debug, PartialEq, Eq, Structural)]
pub struct AccountAddress {
    pub subpool_id: SubpoolId,
    pub public_id: PublicIdentifier,
}

/// Why a text or a byte string is no address.
#[derive(Clone, Copy, Debug, PartialEq, Eq, Structural)]
pub enum AddressError {
    /// The number of bytes is not 40.
    ByteLength(usize),
    /// The number of characters is not 80.
    HexLength(usize),
    /// A character is no hexadecimal digit.
    HexDigit,
}

/// The 40 bytes of an address: `subpool_id` and the four elements of `public_id`
/// as little-endian 64-bit integers.
pub open spec fn address_bytes(a: AccountAddress) -> Seq<u8> {
    u64_le(a.subpool_id.0@ as u64) + u64_le(a.public_id.0.0@ as u64) + u64_le(
        a.public_id.0.1@ as u64,
    ) + u64_le(a.public_id.0.2@ as u64) + u64_le(a.public_id.0.3@ as u64)
}

/// The address that 40 bytes stand for. An integer that is no canonical
/// representative stands for its class.
pub open spec fn decoded_address(b: Seq<u8>) -> AccountAddress {
    AccountAddress {
        subpool_id: SubpoolId(F::of(u64_of_le(b.subrange(0, 8)) as int)),
        public_id: PublicIdentifier(
            HashOutput(
                F::of(u64_of_le(b.subrange(8, 16)) as int),
                F::of(u64_of_le(b.subrange(16, 24)) as int),
                F::of(u64_of_le(b.subrange(24, 32)) as int),
                F::of(u64_of_le(b.subrange(32, 40)) as int),
            ),
        ),
    }
}

/// The lowercase hexadecimal digit of a number below 16.
pub open spec fn hex_char(d: int) -> char {
    if d < 10 {
        (48 + d) as char
    } else {
        (87 + d) as char
    }
}

/// The lowercase hexadecimal digits of bytes, two per byte.
pub open spec fn hex_text(b: Seq<u8>) -> Seq<char> {
    Seq::new(
        2 * b.len(),
        |i: int|
            if i % 2 == 0 {
                hex_char(b[i / 2] as int / 16)
            } else {
                hex_char(b[i / 2] as int % 16)
            },
    )
}

/// The value of a hexadecimal digit, and minus one for any other character.
pub open spec fn hex_value(c: char) -> int {
    let u = c as int;
    if 48 <= u <= 57 {
        u - 48
    } else if 65 <= u <= 70 {
        u - 55
    } else if 97 <= u <= 102 {
        u - 87
    } else {
        -1
    }
}

/// Whether every character is a hexadecimal digit.
pub open spec fn all_hex(t: Seq<char>) -> bool {
    forall|i: int| 0 <= i < t.len() ==> hex_value(#[trigger] t[i]) >= 0
}

/// The bytes that pairs of hexadecimal digits spell.
pub open spec fn hex_bytes(t: Seq<char>) -> Seq<u8> {
    Seq::new(t.len() / 2, |i: int| (16 * hex_value(t[2 * i]) + hex_value(t[2 * i + 1])) as u8)
}

/// `hex::encode`: the lowercase hexadecimal digits of the bytes, two per byte.
#[verifier::external_body]
fn hex_encode(b: &[u8]) -> (r: String)
    ensures
        r@ == hex_text(b@),
{
    hex::encode(b)
}

/// `hex::decode`: the bytes that the digits spell, upper and lower case alike;
/// it fails on an odd number of digits and on other characters.
#[verifier::external_body]
fn hex_decode(t: &str) -> (r: Option<Vec<u8>>)
    ensures
        (r is Some) == (t@.len() % 2 == 0 && all_hex(t@)),
        r is Some ==> r->0@ == hex_bytes(t@),
{
    hex::decode(t).ok()
}

/// Decoding the digits of bytes gives the bytes back.
pub proof fn lemma_hex_roundtrip(b: Seq<u8>)
    ensures
        all_hex(hex_text(b)),
        hex_bytes(hex_text(b)) == b,
        hex_text(b).len() == 2 * b.len(),
{
    let t = hex_text(b);
    assert forall|d: int| 0 <= d < 16 implies hex_value(#[trigger] hex_char(d)) == d by {}
    assert forall|i: int| 0 <= i < t.len() implies hex_value(#[trigger] t[i]) >= 0 by {
        let x = b[i / 2] as int;
        assert(0 <= x / 16 < 16 && 0 <= x % 16 < 16);
    }
    assert forall|i: int| 0 <= i < b.len() implies #[trigger] hex_bytes(t)[i] == b[i] by {
        let x = b[i] as int;
        assert(0 <= x / 16 < 16 && 0 <= x % 16 < 16);
        assert((2 * i) / 2 == i && (2 * i + 1) / 2 == i);
        assert(t[2 * i] == hex_char(x / 16));
        assert(t[2 * i + 1] == hex_char(x % 16));
    }
    assert(hex_bytes(t) =~= b);
}

/// What decoding a text gives: an address for 80 hexadecimal digits.
pub open spec fn spec_from_hex(s: &str) -> Result<AccountAddress, AddressError> {
    if s.spec_bytes().len() != 80 {
        Err(AddressError::HexLength(s.spec_bytes().len() as usize))
    } else if !all_hex(s@) {
        Err(AddressError::HexDigit)
    } else {
        Ok(decoded_address(hex_bytes(s@)))
    }
}

/// A text of hexadecimal digits has one byte per character.
pub(crate) proof fn lemma_hex_is_ascii(s: &str)
    ensures
        all_hex(s@) ==> s.spec_bytes().len() == s@.len(),
{
    if all_hex(s@) {
        assert forall|i: int| 0 <= i < s@.len() implies (0 <= (#[trigger] s@[i]) as nat && (s@[i] as nat) < 128) by {
            assert(hex_value(s@[i]) >= 0);
        }
        vstd::string::is_ascii_spec_bytes(s);
    }
}

impl AccountAddress {
    /// The address of zeros.
    pub fn zero() -> (r: Self)
        ensures
            r == (AccountAddress {
                subpool_id: SubpoolId(F::of(0)),
                public_id: PublicIdentifier(HashOutput(F::of(0), F::of(0), F::of(0), F::of(0))),
            }),
    {
        AccountAddress {
            subpool_id: SubpoolId(F::zero()),
            public_id: PublicIdentifier(HashOutput::zero()),
        }
    }

    /// Construct an address from its components.
    pub fn new(subpool_id: SubpoolId, public_id: PublicIdentifier) -> (r: Self)
        ensures
            r.subpool_id == subpool_id,
            r.public_id == public_id,
    {
        AccountAddress { subpool_id, public_id }
    }

    /// Derive the address from an account.
    pub fn from_acc<H: Fn(Vec<F>, usize) -> Vec<F>>(h: &H, acc: &StandardAccount) -> (r: Self)
        requires
            is_sponge(*h),
        ensures
            r == (AccountAddress {
                subpool_id: acc.subpool_id,
                public_id: PublicIdentifier(acc.spec_public_id(*h)),
            }),
    {
        AccountAddress { subpool_id: acc.subpool_id, public_id: acc.public_id(h) }
    }

    /// Serialize to a 40-byte little-endian representation.
    pub fn to_bytes(&self) -> (out: [u8; 40])
        ensures
            out@ == address_bytes(*self),
    {
        let mut out = [0u8; 40];
        write_u64_le(&mut out, 0, self.subpool_id.0.to_canonical_u64());
        write_u64_le(&mut out, 8, self.public_id.0.0.to_canonical_u64());
        write_u64_le(&mut out, 16, self.public_id.0.1.to_canonical_u64());
        write_u64_le(&mut out, 24, self.public_id.0.2.to_canonical_u64());
        write_u64_le(&mut out, 32, self.public_id.0.3.to_canonical_u64());
        assert(out@ =~= address_bytes(*self));
        out
    }

    /// Deserialize from the 40-byte representation.
    pub fn from_bytes(bytes: &[u8]) -> (r: Result<Self, AddressError>)
        ensures
            r == (if bytes@.len() == 40 {
                Ok::<AccountAddress, AddressError>(decoded_address(bytes@))
            } else {
                Err::<AccountAddress, AddressError>(
                    AddressError::ByteLength(bytes@.len() as usize),
                )
            }),
    {
        if bytes.len() != 40 {
            return Err(AddressError::ByteLength(bytes.len()));
        }
        Ok(
            AccountAddress {
                subpool_id: SubpoolId(F::from_noncanonical_u64(read_u64_le(bytes, 0))),
                public_id: PublicIdentifier(
                    HashOutput(
                        F::from_noncanonical_u64(read_u64_le(bytes, 8)),
                        F::from_noncanonical_u64(read_u64_le(bytes, 16)),
                        F::from_noncanonical_u64(read_u64_le(bytes, 24)),
                        F::from_noncanonical_u64(read_u64_le(bytes, 32)),
                    ),
                ),
            },
        )
    }

    /// Whether the elements are canonical; every value that a program can make has
    /// canonical elements.
    pub open spec fn canonical(self) -> bool {
        self.subpool_id.0.canonical() && self.public_id.0.0.canonical()
            && self.public_id.0.1.canonical() && self.public_id.0.2.canonical()
            && self.public_id.0.3.canonical()
    }

    /// Reading the bytes of an address gives the address back.
    pub proof fn lemma_bytes_roundtrip(a: AccountAddress)
        requires
            a.canonical(),
        ensures
            address_bytes(a).len() == 40,
            decoded_address(address_bytes(a)) == a,
    {
        let b = address_bytes(a);
        let (s, p) = (a.subpool_id.0, a.public_id.0);
        lemma_u64_le_roundtrip(s@ as u64);
        lemma_u64_le_roundtrip(p.0@ as u64);
        lemma_u64_le_roundtrip(p.1@ as u64);
        lemma_u64_le_roundtrip(p.2@ as u64);
        lemma_u64_le_roundtrip(p.3@ as u64);
        assert(b.subrange(0, 8) =~= u64_le(s@ as u64));
        assert(b.subrange(8, 16) =~= u64_le(p.0@ as u64));
        assert(b.subrange(16, 24) =~= u64_le(p.1@ as u64));
        assert(b.subrange(24, 32) =~= u64_le(p.2@ as u64));
        assert(b.subrange(32, 40) =~= u64_le(p.3@ as u64));
        lemma_small_mod(s@ as nat, goldilocks() as nat);
        lemma_small_mod(p.0@ as nat, goldilocks() as nat);
        lemma_small_mod(p.1@ as nat, goldilocks() as nat);
        lemma_small_mod(p.2@ as nat, goldilocks() as nat);
        lemma_small_mod(p.3@ as nat, goldilocks() as nat);
    }

    /// Encode as an 80-character lowercase hex string.
    pub fn to_hex(&self) -> (r: String)
        ensures
            r@ == hex_text(address_bytes(*self)),
    {
        hex_encode(self.to_bytes().as_slice())
    }

    /// Decode from the 80-hex-char encoding.
    pub fn from_hex(s: &str) -> (r: Result<Self, AddressError>)
        ensures
            r == spec_from_hex(s),
    {
        let n: usize = s.as_bytes().len();
        if n != 80 {
            return Err(AddressError::HexLength(n));
        }
        proof {
            lemma_hex_is_ascii(s);
        }
        match hex_decode(s) {
            Some(v) => Self::from_bytes(v.as_slice()),
            None => Err(AddressError::HexDigit),
        }
    }

    /// Decoding the hexadecimal text of an address gives the address back.
    pub proof fn lemma_text_roundtrip(a: AccountAddress, s: &str)
        requires
            a.canonical(),
            s@ == hex_text(address_bytes(a)),
        ensures
            spec_from_hex(s) == Ok::<AccountAddress, AddressError>(a),
    {
        Self::lemma_bytes_roundtrip(a);
        lemma_hex_roundtrip(address_bytes(a));
        lemma_hex_is_ascii(s);
    }
}

} // verus!
