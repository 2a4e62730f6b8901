//! Notes, their commitments and nullifiers, and the hashes of transactions.
use vstd::prelude::*;

use crate::account::{AccountAddress, AccountCommitment, AccountNullifier, NullifierKey};
use crate::ast::AssetId;
use crate::field::F;
use crate::hash::{digest, hash_no_pad, is_sponge, two_to_one, HashOutput};
use crate::params::{ACC_AST_DEPTH, NOTE_BATCH};
use crate::tree::tree_node;
use crate::u256::U256;

verus! {

/// Commitment to a [`DepositNote`].
#[derive(Clone, Copy, Debug, PartialEq, Eq, Structural)]
pub struct DepositNoteCommitment(pub HashOutput);

/// Commitment to a [`StandardNote`], inserted into the Note Commitment Tree (NCT).
#[derive(Clone, Copy, Debug, PartialEq, Eq, Structural)]
pub struct NoteCommitment(pub HashOutput);

/// Spend-once nullifier for a note, derived from its commitment, tree position,
/// and the owner's nullifier key.
#[derive(Clone, Copy, Debug, PartialEq, Eq, Structural)]
pub struct NoteNullifier(pub HashOutput);

/// Random 2-field-element nonce that makes each note commitment unique.
#[derive(Clone, Copy, Debug, PartialEq, Eq, Structural)]
pub struct NodeIdentifier(pub F, pub F);

impl NodeIdentifier {
    /// All-zero identifier used as a padding value in dummy notes.
    pub fn zero() -> (r: Self)
        ensures
            r == NodeIdentifier(F::of(0), F::of(0)),
    {
        NodeIdentifier(F::zero(), F::zero())
    }
}

/// An external deposit intent created by a sender (e.g. an Ethereum user).
#[derive(Clone, Copy, Debug, PartialEq, Eq, Structural)]
pub struct DepositNote {
    /// 2-element random identifier that makes each note unique.
    pub identifier: NodeIdentifier,
    /// The account address that will receive the deposit.
    pub recipient: AccountAddress,
    /// Amount to deposit.
    pub amount: U256,
    /// Asset type being deposited.
    pub asset_id: AssetId,
}

/// The elements of an address: the subpool and the public identifier.
pub open spec fn address_elements(a: AccountAddress) -> Seq<F> {
    seq![a.subpool_id.0] + a.public_id.0.elements()
}

fn append_address(a: &AccountAddress, v: &mut Vec<F>)
    ensures
        final(v)@ == old(v)@ + address_elements(*a),
{
    v.push(a.subpool_id.0);
    a.public_id.0.append_to(v);
    assert(v@ =~= old(v)@ + address_elements(*a));
}

impl DepositNote {
    /// The hash input (16 field elements):
    /// `identifier[2] || recipient.subpool_id[1] || recipient.public_id[4]
    /// || amount[8 u32 limbs, LE] || asset_id[1]`.
    pub open spec fn preimage(self) -> Seq<F> {
        seq![self.identifier.0, self.identifier.1] + address_elements(self.recipient)
            + self.amount.limbs() + seq![self.asset_id.0]
    }

    /// Compute the commitment to this deposit note.
    pub fn commitment<H: Fn(Vec<F>, usize) -> Vec<F>>(&self, h: &H) -> (r: DepositNoteCommitment)
        requires
            is_sponge(*h),
        ensures
            r.0 == digest(*h, self.preimage()),
    {
        let mut v: Vec<F> = Vec::new();
        v.push(self.identifier.0);
        v.push(self.identifier.1);
        append_address(&self.recipient, &mut v);
        self.amount.append_limbs(&mut v);
        v.push(self.asset_id.0);
        assert(v@ =~= self.preimage());
        DepositNoteCommitment(hash_no_pad(h, v))
    }
}

/// A private note carrying a fungible asset balance between accounts.
///
/// - **Spend**: the note can only be spent by the `recipient`.
/// - **Reject**: the `sender` can reclaim the note if the recipient refuses to
///   process it.
#[derive(Clone, Copy, Debug, PartialEq, Eq, Structural)]
pub struct StandardNote {
    pub identifier: NodeIdentifier,
    pub asset_id: AssetId,
    pub amt: U256,
    /// Account that will receive the funds.
    pub recipient: AccountAddress,
    /// Account that originally sent the funds (used for rejection).
    pub sender: AccountAddress,
}

impl StandardNote {
    /// Create a note with an explicit identifier.
    pub fn new(
        identifier: NodeIdentifier,
        asset_id: AssetId,
        amt: U256,
        recipient: AccountAddress,
        sender: AccountAddress,
    ) -> (r: Self)
        ensures
            r == (StandardNote { identifier, asset_id, amt, recipient, sender }),
    {
        StandardNote { identifier, asset_id, amt, recipient, sender }
    }

    /// Returns the note amount.
    pub fn amt(&self) -> (r: U256)
        ensures
            r == self.amt,
    {
        self.amt
    }

    /// The hash input (21 field elements):
    /// `identifier[2] || amount[8 u32 limbs, LE] || asset_id[1]
    /// || recipient.subpool_id[1] || recipient.public_id[4]
    /// || sender.subpool_id[1] || sender.public_id[4]`.
    pub open spec fn preimage(self) -> Seq<F> {
        seq![self.identifier.0, self.identifier.1] + self.amt.limbs() + seq![self.asset_id.0]
            + address_elements(self.recipient) + address_elements(self.sender)
    }

    /// The commitment.
    pub open spec fn spec_commitment<H: Fn(Vec<F>, usize) -> Vec<F>>(self, h: H) -> HashOutput {
        digest(h, self.preimage())
    }

    /// Compute the commitment for this note.
    pub fn commitment<H: Fn(Vec<F>, usize) -> Vec<F>>(&self, h: &H) -> (r: NoteCommitment)
        requires
            is_sponge(*h),
        ensures
            r.0 == self.spec_commitment(*h),
    {
        let mut v: Vec<F> = Vec::new();
        v.push(self.identifier.0);
        v.push(self.identifier.1);
        self.amt.append_limbs(&mut v);
        v.push(self.asset_id.0);
        append_address(&self.recipient, &mut v);
        append_address(&self.sender, &mut v);
        assert(v@ =~= self.preimage());
        NoteCommitment(hash_no_pad(h, v))
    }
}

/// A [`StandardNote`] together with its leaf index in the Note Commitment Tree.
#[derive(Clone, Copy, Debug, PartialEq, Eq, Structural)]
pub struct PositionedStandardNode {
    pub note: StandardNote,
    /// Leaf index of this note's commitment in the NCT.
    pub position: F,
}

/// What a note nullifier is the hash of: `commitment[4] || position[1] || nk[4]`.
pub open spec fn note_nullifier_preimage(c: HashOutput, position: F, nk: HashOutput) -> Seq<F> {
    c.elements() + seq![position] + nk.elements()
}

impl PositionedStandardNode {
    /// Pair a note with its NCT leaf position.
    pub fn from_note(n: StandardNote, position: F) -> (r: Self)
        ensures
            r == (PositionedStandardNode { note: n, position }),
    {
        PositionedStandardNode { note: n, position }
    }

    /// Derive the spend-once nullifier for this note.
    pub fn nullifier<H: Fn(Vec<F>, usize) -> Vec<F>>(&self, h: &H, nk: &NullifierKey) -> (r:
        NoteNullifier)
        requires
            is_sponge(*h),
        ensures
            r.0 == digest(
                *h,
                note_nullifier_preimage(self.note.spec_commitment(*h), self.position, nk.0),
            ),
    {
        compute_note_nullifier(h, &self.note.commitment(h), self.position, nk)
    }
}

/// Compute a note nullifier from a commitment, NCT position, and nullifier key.
pub fn compute_note_nullifier<H: Fn(Vec<F>, usize) -> Vec<F>>(
    h: &H,
    commitment: &NoteCommitment,
    position: F,
    nk: &NullifierKey,
) -> (r: NoteNullifier)
    requires
        is_sponge(*h),
    ensures
        r.0 == digest(*h, note_nullifier_preimage(commitment.0, position, nk.0)),
{
    let mut v: Vec<F> = Vec::new();
    commitment.0.append_to(&mut v);
    v.push(position);
    nk.0.append_to(&mut v);
    assert(v@ =~= note_nullifier_preimage(commitment.0, position, nk.0));
    NoteNullifier(hash_no_pad(h, v))
}

/// The digest of the digest: what stands in a note slot that is not in use.
pub open spec fn double_digest<H: Fn(Vec<F>, usize) -> Vec<F>>(h: H, x: HashOutput) -> HashOutput {
    digest(h, digest(h, x.elements()).elements())
}

/// The digest of the digest: what stands in a note slot that is not in use.
pub fn double_hash_native<H: Fn(Vec<F>, usize) -> Vec<F>>(h: &H, elems: HashOutput) -> (r:
    HashOutput)
    requires
        is_sponge(*h),
    ensures
        r == double_digest(*h, elems),
{
    let mut v: Vec<F> = Vec::new();
    elems.append_to(&mut v);
    assert(v@ =~= elems.elements());
    let first = hash_no_pad(h, v);
    let mut w: Vec<F> = Vec::new();
    first.append_to(&mut w);
    assert(w@ =~= first.elements());
    hash_no_pad(h, w)
}

/// The elements of digests, one after the other.
pub open spec fn concat_digests(s: Seq<HashOutput>) -> Seq<F>
    decreases s.len(),
{
    if s.len() == 0 {
        Seq::empty()
    } else {
        concat_digests(s.drop_last()) + s.last().elements()
    }
}

/// The digests of nullifiers.
pub open spec fn nullifier_digests(s: Seq<NoteNullifier>) -> Seq<HashOutput> {
    s.map_values(|n: NoteNullifier| n.0)
}

/// The digests of commitments.
pub open spec fn commitment_digests(s: Seq<NoteCommitment>) -> Seq<HashOutput> {
    s.map_values(|n: NoteCommitment| n.0)
}

/// The hash input of a private transaction:
/// `accin_null[4] || accout_comm[4] || inotes_null || onotes_comm`.
pub open spec fn priv_tx_preimage(
    accin_null: HashOutput,
    accout_comm: HashOutput,
    inotes_null: Seq<HashOutput>,
    onotes_comm: Seq<HashOutput>,
) -> Seq<F> {
    accin_null.elements() + accout_comm.elements() + concat_digests(inotes_null) + concat_digests(
        onotes_comm,
    )
}

/// Compute the transaction hash for a private transaction: the message signed by
/// the spend, consume, and approval keys.
pub fn derive_priv_tx_hash<H: Fn(Vec<F>, usize) -> Vec<F>>(
    h: &H,
    accin_null: AccountNullifier,
    accout_comm: AccountCommitment,
    inotes_null: &[NoteNullifier; NOTE_BATCH],
    onotes_comm: &[NoteCommitment; NOTE_BATCH],
) -> (r: HashOutput)
    requires
        is_sponge(*h),
    ensures
        r == digest(
            *h,
            priv_tx_preimage(
                accin_null.0,
                accout_comm.0,
                nullifier_digests(inotes_null@),
                commitment_digests(onotes_comm@),
            ),
        ),
{
    let mut v: Vec<F> = Vec::new();
    accin_null.0.append_to(&mut v);
    accout_comm.0.append_to(&mut v);
    let ghost head = v@;
    let ghost nn = nullifier_digests(inotes_null@);
    let ghost nc = commitment_digests(onotes_comm@);
    let mut i: usize = 0;
    while i < NOTE_BATCH
        invariant
            i <= NOTE_BATCH,
            nn == nullifier_digests(inotes_null@),
            v@ == head + concat_digests(nn.take(i as int)),
        decreases NOTE_BATCH - i,
    {
        inotes_null[i].0.append_to(&mut v);
        i += 1;
        proof {
            assert(nn.take(i as int).drop_last() =~= nn.take(i - 1));
            assert(v@ =~= head + concat_digests(nn.take(i as int)));
        }
    }
    assert(nn.take(NOTE_BATCH as int) =~= nn);
    let ghost body = v@;
    let mut j: usize = 0;
    while j < NOTE_BATCH
        invariant
            j <= NOTE_BATCH,
            nc == commitment_digests(onotes_comm@),
            v@ == body + concat_digests(nc.take(j as int)),
        decreases NOTE_BATCH - j,
    {
        onotes_comm[j].0.append_to(&mut v);
        j += 1;
        proof {
            assert(nc.take(j as int).drop_last() =~= nc.take(j - 1));
            assert(v@ =~= body + concat_digests(nc.take(j as int)));
        }
    }
    assert(nc.take(NOTE_BATCH as int) =~= nc);
    assert(v@ =~= priv_tx_preimage(accin_null.0, accout_comm.0, nn, nc));
    hash_no_pad(h, v)
}

/// The 32-bit integer of four bytes, least significant first.
pub open spec fn u32_of_le(b: Seq<u8>, at: int) -> int {
    b[at] + b[at + 1] * 0x100 + b[at + 2] * 0x1_0000 + b[at + 3] * 0x100_0000
}

/// The five elements of a 20-byte address: 32-bit little-endian limbs.
pub open spec fn h160_elements(b: Seq<u8>) -> Seq<F> {
    seq![
        F::of(u32_of_le(b, 0)),
        F::of(u32_of_le(b, 4)),
        F::of(u32_of_le(b, 8)),
        F::of(u32_of_le(b, 12)),
        F::of(u32_of_le(b, 16)),
    ]
}

fn h160_limb(b: &[u8; 20], at: usize) -> (r: F)
    requires
        at + 4 <= 20,
    ensures
        r == F::of(u32_of_le(b@, at as int)),
{
    let x: u64 = b[at] as u64 + (b[at + 1] as u64) * 0x100 + (b[at + 2] as u64) * 0x1_0000 + (b[at
        + 3] as u64) * 0x100_0000;
    F::from_canonical_u64(x)
}

/// Map a 20-byte address to five field elements, with limbs of 32 bits.
pub fn map_h160_to_f(b: &[u8; 20]) -> (r: [F; 5])
    ensures
        r@ == h160_elements(b@),
{
    let r = [
        h160_limb(b, 0),
        h160_limb(b, 4),
        h160_limb(b, 8),
        h160_limb(b, 12),
        h160_limb(b, 16),
    ];
    assert(r@ =~= h160_elements(b@));
    r
}

fn append_five(e: &[F; 5], v: &mut Vec<F>)
    ensures
        final(v)@ == old(v)@ + e@,
{
    v.push(e[0]);
    v.push(e[1]);
    v.push(e[2]);
    v.push(e[3]);
    v.push(e[4]);
    assert(v@ =~= old(v)@ + e@);
}

/// The hash input of a deposit transaction:
/// `accin_null[4] || accout_comm[4] || note_comm[4] || eth_address[5]`.
pub open spec fn deposit_tx_preimage(
    accin_null: HashOutput,
    accout_comm: HashOutput,
    note_comm: HashOutput,
    eth: Seq<F>,
) -> Seq<F> {
    accin_null.elements() + accout_comm.elements() + note_comm.elements() + eth
}

/// The hash of a deposit transaction, from the elements of the Ethereum address.
pub fn hash_deposit_tx<H: Fn(Vec<F>, usize) -> Vec<F>>(
    h: &H,
    accin_null: HashOutput,
    accout_comm: HashOutput,
    note_comm: HashOutput,
    eth: &[F; 5],
) -> (r: HashOutput)
    requires
        is_sponge(*h),
    ensures
        r == digest(*h, deposit_tx_preimage(accin_null, accout_comm, note_comm, eth@)),
{
    let mut v: Vec<F> = Vec::new();
    accin_null.append_to(&mut v);
    accout_comm.append_to(&mut v);
    note_comm.append_to(&mut v);
    append_five(eth, &mut v);
    assert(v@ =~= deposit_tx_preimage(accin_null, accout_comm, note_comm, eth@));
    hash_no_pad(h, v)
}

/// Compute the transaction hash for a deposit transaction.
pub fn derive_deposit_tx_hash<H: Fn(Vec<F>, usize) -> Vec<F>>(
    h: &H,
    accin_null: AccountNullifier,
    accout_comm: AccountCommitment,
    deposit_note_comm: DepositNoteCommitment,
    eth_adrs: &[u8; 20],
) -> (r: HashOutput)
    requires
        is_sponge(*h),
    ensures
        r == digest(
            *h,
            deposit_tx_preimage(
                accin_null.0,
                accout_comm.0,
                deposit_note_comm.0,
                h160_elements(eth_adrs@),
            ),
        ),
{
    hash_deposit_tx(h, accin_null.0, accout_comm.0, deposit_note_comm.0, &map_h160_to_f(eth_adrs))
}

/// The elements of asset identifiers.
pub open spec fn asset_elements(s: Seq<AssetId>) -> Seq<F> {
    s.map_values(|a: AssetId| a.0)
}

/// The limbs of amounts, one after the other.
pub open spec fn concat_limbs(s: Seq<U256>) -> Seq<F>
    decreases s.len(),
{
    if s.len() == 0 {
        Seq::empty()
    } else {
        concat_limbs(s.drop_last()) + s.last().limbs()
    }
}

/// The hash input of a withdrawal transaction:
/// `accin_null[4] || accout_comm[4] || asset_ids || amounts (8 limbs each)
/// || w_acc_addr[5]`.
pub open spec fn withdraw_tx_preimage(
    accin_null: HashOutput,
    accout_comm: HashOutput,
    asset_ids: Seq<AssetId>,
    amounts: Seq<U256>,
    w_acc_addr: Seq<F>,
) -> Seq<F> {
    accin_null.elements() + accout_comm.elements() + asset_elements(asset_ids) + concat_limbs(
        amounts,
    ) + w_acc_addr
}

/// Compute the transaction hash for a withdrawal transaction.
pub fn derive_withdraw_tx_hash<H: Fn(Vec<F>, usize) -> Vec<F>>(
    h: &H,
    accin_null: AccountNullifier,
    accout_comm: AccountCommitment,
    asset_ids: &[AssetId; NOTE_BATCH],
    amounts: &[U256; NOTE_BATCH],
    w_acc_addr: &[u8; 20],
) -> (r: HashOutput)
    requires
        is_sponge(*h),
    ensures
        r == digest(
            *h,
            withdraw_tx_preimage(
                accin_null.0,
                accout_comm.0,
                asset_ids@,
                amounts@,
                h160_elements(w_acc_addr@),
            ),
        ),
{
    hash_withdraw_tx(
        h,
        accin_null.0,
        accout_comm.0,
        asset_ids,
        amounts,
        &map_h160_to_f(w_acc_addr),
    )
}

/// The hash of a withdrawal transaction, from the elements of the Ethereum
/// address.
pub fn hash_withdraw_tx<H: Fn(Vec<F>, usize) -> Vec<F>>(
    h: &H,
    accin_null: HashOutput,
    accout_comm: HashOutput,
    asset_ids: &[AssetId; NOTE_BATCH],
    amounts: &[U256; NOTE_BATCH],
    w_acc_addr: &[F; 5],
) -> (r: HashOutput)
    requires
        is_sponge(*h),
    ensures
        r == digest(
            *h,
            withdraw_tx_preimage(accin_null, accout_comm, asset_ids@, amounts@, w_acc_addr@),
        ),
{
    let mut v: Vec<F> = Vec::new();
    accin_null.append_to(&mut v);
    accout_comm.append_to(&mut v);
    let ghost head = v@;
    let mut i: usize = 0;
    while i < NOTE_BATCH
        invariant
            i <= NOTE_BATCH,
            v@ == head + asset_elements(asset_ids@.take(i as int)),
        decreases NOTE_BATCH - i,
    {
        v.push(asset_ids[i].0);
        i += 1;
        assert(v@ =~= head + asset_elements(asset_ids@.take(i as int)));
    }
    assert(asset_ids@.take(NOTE_BATCH as int) =~= asset_ids@);
    let ghost body = v@;
    let mut j: usize = 0;
    while j < NOTE_BATCH
        invariant
            j <= NOTE_BATCH,
            v@ == body + concat_limbs(amounts@.take(j as int)),
        decreases NOTE_BATCH - j,
    {
        amounts[j].append_limbs(&mut v);
        j += 1;
        proof {
            assert(amounts@.take(j as int).drop_last() =~= amounts@.take(j - 1));
            assert(v@ =~= body + concat_limbs(amounts@.take(j as int)));
        }
    }
    assert(amounts@.take(NOTE_BATCH as int) =~= amounts@);
    append_five(w_acc_addr, &mut v);
    assert(v@ =~= withdraw_tx_preimage(
        accin_null,
        accout_comm,
        asset_ids@,
        amounts@,
        w_acc_addr@,
    ));
    hash_no_pad(h, v)
}

/// The root of the Account State Tree all of whose leaves are empty.
pub fn ast_default_root<H: Fn(Vec<F>, usize) -> Vec<F>>(h: &H) -> (r: HashOutput)
    requires
        is_sponge(*h),
    ensures
        r == crate::ast::ast_root(*h, Seq::empty()),
{
    let mut cur = HashOutput::zero();
    let ghost leaves = crate::ast::ast_leaves(*h, Seq::empty());
    let mut l: usize = 0;
    while l < ACC_AST_DEPTH
        invariant
            is_sponge(*h),
            l <= ACC_AST_DEPTH,
            leaves == crate::ast::ast_leaves(*h, Seq::empty()),
            forall|i: nat| cur == #[trigger] tree_node(*h, leaves, l as nat, i),
        decreases ACC_AST_DEPTH - l,
    {
        let ghost level = l as nat;
        let next = two_to_one(h, cur, cur);
        proof {
            assert forall|i: nat| next == #[trigger] tree_node(*h, leaves, level + 1, i) by {
                assert(tree_node(*h, leaves, level, 2 * i) == cur);
                assert(tree_node(*h, leaves, level, 2 * i + 1) == cur);
            }
        }
        cur = next;
        l += 1;
        assert(l as nat == level + 1);
    }
    cur
}

} // verus!
