//! The public inputs of the three transaction circuits.
//!
//! All three start with the same 17 elements:
//! ```text
//! [0..4]   state_root            (commitment tree root)
//! [4..8]   mainpool_config_root  (main pool config root)
//! [8]      not_fake_tx           (one = real, zero = dummy/padding)
//! [9..13]  accin_null            (input account nullifier)
//! [13..17] accout_comm           (output account commitment)
//! ```
//! The layouts are generic: an element is a value of the field, or a wire.
use vstd::prelude::*;

use crate::ast::AssetId;
use crate::field::F;
use crate::hash::HashOutput;
use crate::note::{h160_elements, u32_of_le};
use crate::params::NOTE_BATCH;
use crate::primes::goldilocks;
use crate::u256::U256;

verus! {

/// Number of public inputs of a private transaction.
pub const PRIV_TX_PIS: usize = 73;

/// Number of public inputs of a deposit.
pub const DEPOSIT_TX_PIS: usize = 35;

/// Number of public inputs of a withdrawal.
pub const WITHDRAW_TX_PIS: usize = 85;

fn four<T: Copy>(s: &[T], at: usize) -> (r: [T; 4])
    requires
        at + 4 <= s@.len(),
    ensures
        r@ == s@.subrange(at as int, at + 4),
{
    let r = [s[at], s[at + 1], s[at + 2], s[at + 3]];
    assert(r@ =~= s@.subrange(at as int, at + 4));
    r
}

fn five<T: Copy>(s: &[T], at: usize) -> (r: [T; 5])
    requires
        at + 5 <= s@.len(),
    ensures
        r@ == s@.subrange(at as int, at + 5),
{
    let r = [s[at], s[at + 1], s[at + 2], s[at + 3], s[at + 4]];
    assert(r@ =~= s@.subrange(at as int, at + 5));
    r
}

fn eight<T: Copy>(s: &[T], at: usize) -> (r: [T; 8])
    requires
        at + 8 <= s@.len(),
    ensures
        r@ == s@.subrange(at as int, at + 8),
{
    let r = [
        s[at],
        s[at + 1],
        s[at + 2],
        s[at + 3],
        s[at + 4],
        s[at + 5],
        s[at + 6],
        s[at + 7],
    ];
    assert(r@ =~= s@.subrange(at as int, at + 8));
    r
}

fn append<T: Copy, const N: usize>(v: &mut Vec<T>, s: &[T; N])
    ensures
        final(v)@ == old(v)@ + s@,
{
    let mut i: usize = 0;
    while i < N
        invariant
            i <= N,
            v@ == old(v)@ + s@.take(i as int),
        decreases N - i,
    {
        v.push(s[i]);
        i += 1;
        assert(v@ =~= old(v)@ + s@.take(i as int));
    }
    assert(s@.take(N as int) =~= s@);
}

/// Seven blocks, one after the other.
pub open spec fn blocks<T, const N: usize>(s: [[T; N]; NOTE_BATCH]) -> Seq<T> {
    s@[0]@ + s@[1]@ + s@[2]@ + s@[3]@ + s@[4]@ + s@[5]@ + s@[6]@
}

fn append_blocks<T: Copy, const N: usize>(v: &mut Vec<T>, s: &[[T; N]; NOTE_BATCH])
    ensures
        final(v)@ == old(v)@ + blocks(*s),
{
    append(v, &s[0]);
    append(v, &s[1]);
    append(v, &s[2]);
    append(v, &s[3]);
    append(v, &s[4]);
    append(v, &s[5]);
    append(v, &s[6]);
    assert(v@ =~= old(v)@ + blocks(*s));
}

fn seven_fours<T: Copy>(s: &[T], at: usize) -> (r: [[T; 4]; NOTE_BATCH])
    requires
        at <= 100,
        at + 28 <= s@.len(),
    ensures
        blocks(r) == s@.subrange(at as int, at + 28),
        forall|i: int|
            0 <= i < 7 ==> (#[trigger] r@[i])@ == s@.subrange(at + 4 * i, at + 4 * i + 4),
{
    let r = [
        four(s, at),
        four(s, at + 4),
        four(s, at + 8),
        four(s, at + 12),
        four(s, at + 16),
        four(s, at + 20),
        four(s, at + 24),
    ];
    assert(blocks(r) =~= s@.subrange(at as int, at + 28));
    r
}

fn seven_eights<T: Copy>(s: &[T], at: usize) -> (r: [[T; 8]; NOTE_BATCH])
    requires
        at <= 100,
        at + 56 <= s@.len(),
    ensures
        blocks(r) == s@.subrange(at as int, at + 56),
        forall|i: int|
            0 <= i < 7 ==> (#[trigger] r@[i])@ == s@.subrange(at + 8 * i, at + 8 * i + 8),
{
    let r = [
        eight(s, at),
        eight(s, at + 8),
        eight(s, at + 16),
        eight(s, at + 24),
        eight(s, at + 32),
        eight(s, at + 40),
        eight(s, at + 48),
    ];
    assert(blocks(r) =~= s@.subrange(at as int, at + 56));
    r
}

/// The public inputs of a private transaction.
pub struct TxCircuitPublicTargets<T> {
    /// `[0..4]`: commitment tree root.
    pub state_root: [T; 4],
    /// `[4..8]`: main pool configuration tree root.
    pub mainpool_config_root: [T; 4],
    /// `[8]`: one for a real transaction, zero for a dummy/padding proof.
    pub not_fake_tx: T,
    /// `[9..13]`: account nullifier.
    pub accin_null: [T; 4],
    /// `[13..17]`: account output commitment.
    pub accout_comm: [T; 4],
    /// `[17..45]`: input note nullifiers.
    pub inotes_null: [[T; 4]; NOTE_BATCH],
    /// `[45..73]`: output note commitments.
    pub onotes_comm: [[T; 4]; NOTE_BATCH],
}

impl<T: Copy> TxCircuitPublicTargets<T> {
    /// The inputs from `not_fake_tx` on.
    pub open spec fn unique(&self) -> Seq<T> {
        seq![self.not_fake_tx] + self.accin_null@ + self.accout_comm@ + blocks(self.inotes_null)
            + blocks(self.onotes_comm)
    }

    /// The inputs, in order.
    pub open spec fn flat(&self) -> Seq<T> {
        self.state_root@ + self.mainpool_config_root@ + self.unique()
    }

    /// The inputs, in the order in which the circuit registers them.
    pub fn register(&self) -> (r: Vec<T>)
        ensures
            r@ == self.flat(),
            r@.len() == PRIV_TX_PIS,
    {
        let mut v: Vec<T> = Vec::new();
        append(&mut v, &self.state_root);
        append(&mut v, &self.mainpool_config_root);
        let mut u = self.unique_pi_targets();
        v.append(&mut u);
        assert(v@ =~= self.flat());
        v
    }

    /// Construct from a flat list of inputs, read in the order of `register`.
    pub fn from_pis(pis: &[T]) -> (r: Self)
        requires
            pis@.len() >= PRIV_TX_PIS,
        ensures
            r.flat() == pis@.take(PRIV_TX_PIS as int),
    {
        let r = TxCircuitPublicTargets {
            state_root: four(pis, 0),
            mainpool_config_root: four(pis, 4),
            not_fake_tx: pis[8],
            accin_null: four(pis, 9),
            accout_comm: four(pis, 13),
            inotes_null: seven_fours(pis, 17),
            onotes_comm: seven_fours(pis, 45),
        };
        assert(r.flat() =~= pis@.take(PRIV_TX_PIS as int));
        r
    }

    /// The commitments that the transaction adds: the account's, then the notes'.
    pub fn output_commitments(&self) -> (r: [[T; 4]; 8])
        ensures
            r@ == seq![self.accout_comm] + self.onotes_comm@,
    {
        let n = &self.onotes_comm;
        let r = [self.accout_comm, n[0], n[1], n[2], n[3], n[4], n[5], n[6]];
        assert(r@ =~= seq![self.accout_comm] + self.onotes_comm@);
        r
    }

    /// The inputs that are unique to a transaction in a batch: from `not_fake_tx`
    /// on.
    pub fn unique_pi_targets(&self) -> (r: Vec<T>)
        ensures
            r@ == self.unique(),
            r@ == self.flat().skip(8),
            r@.len() == PRIV_TX_PIS - 8,
    {
        let mut v: Vec<T> = Vec::new();
        v.push(self.not_fake_tx);
        append(&mut v, &self.accin_null);
        append(&mut v, &self.accout_comm);
        append_blocks(&mut v, &self.inotes_null);
        append_blocks(&mut v, &self.onotes_comm);
        assert(v@ =~= self.unique());
        assert(self.flat().skip(8) =~= self.unique());
        v
    }

    /// Inputs with the same flat list are the same.
    pub proof fn lemma_flat_injective(&self, other: &Self)
        requires
            self.flat() == other.flat(),
        ensures
            self.state_root@ == other.state_root@,
            self.mainpool_config_root@ == other.mainpool_config_root@,
            self.not_fake_tx == other.not_fake_tx,
            self.accin_null@ == other.accin_null@,
            self.accout_comm@ == other.accout_comm@,
            blocks(self.inotes_null) == blocks(other.inotes_null),
            blocks(self.onotes_comm) == blocks(other.onotes_comm),
    {
        let (a, b) = (self.flat(), other.flat());
        assert(self.state_root@ =~= a.subrange(0, 4));
        assert(other.state_root@ =~= b.subrange(0, 4));
        assert(self.mainpool_config_root@ =~= a.subrange(4, 8));
        assert(other.mainpool_config_root@ =~= b.subrange(4, 8));
        assert(self.not_fake_tx == a[8]);
        assert(other.not_fake_tx == b[8]);
        assert(self.accin_null@ =~= a.subrange(9, 13));
        assert(other.accin_null@ =~= b.subrange(9, 13));
        assert(self.accout_comm@ =~= a.subrange(13, 17));
        assert(other.accout_comm@ =~= b.subrange(13, 17));
        assert(blocks(self.inotes_null) =~= a.subrange(17, 45));
        assert(blocks(other.inotes_null) =~= b.subrange(17, 45));
        assert(blocks(self.onotes_comm) =~= a.subrange(45, 73));
        assert(blocks(other.onotes_comm) =~= b.subrange(45, 73));
    }
}

/// The public inputs of a deposit.
pub struct DepositTxPublicTargets<T> {
    /// `[0..4]`: commitment tree root.
    pub state_root: [T; 4],
    /// `[4..8]`: main pool configuration tree root.
    pub mainpool_config_root: [T; 4],
    /// `[8]`: one for a real transaction, zero for a dummy/padding proof.
    pub not_fake_tx: T,
    /// `[9..13]`: input account nullifier.
    pub accin_null: [T; 4],
    /// `[13..17]`: output account commitment.
    pub accout_comm: [T; 4],
    /// `[17..21]`: commitment to the deposit note.
    pub note_comm: [T; 4],
    /// `[21..26]`: Ethereum address (five 32-bit limbs).
    pub eth_address: [T; 5],
    /// `[26..34]`: deposit amount (eight 32-bit limbs).
    pub amount: [T; 8],
    /// `[34]`: asset being deposited.
    pub asset_id: T,
}

impl<T: Copy> DepositTxPublicTargets<T> {
    /// The inputs from `not_fake_tx` on.
    pub open spec fn unique(&self) -> Seq<T> {
        seq![self.not_fake_tx] + self.accin_null@ + self.accout_comm@ + self.note_comm@
            + self.eth_address@ + self.amount@ + seq![self.asset_id]
    }

    /// The inputs, in order.
    pub open spec fn flat(&self) -> Seq<T> {
        self.state_root@ + self.mainpool_config_root@ + self.unique()
    }

    /// The inputs, in the order in which the circuit registers them.
    pub fn register(&self) -> (r: Vec<T>)
        ensures
            r@ == self.flat(),
            r@.len() == DEPOSIT_TX_PIS,
    {
        let mut v: Vec<T> = Vec::new();
        append(&mut v, &self.state_root);
        append(&mut v, &self.mainpool_config_root);
        let mut u = self.unique_pi_targets();
        v.append(&mut u);
        assert(v@ =~= self.flat());
        v
    }

    /// Construct from a flat list of inputs, read in the order of `register`.
    pub fn from_pis(pis: &[T]) -> (r: Self)
        requires
            pis@.len() >= DEPOSIT_TX_PIS,
        ensures
            r.flat() == pis@.take(DEPOSIT_TX_PIS as int),
    {
        let r = DepositTxPublicTargets {
            state_root: four(pis, 0),
            mainpool_config_root: four(pis, 4),
            not_fake_tx: pis[8],
            accin_null: four(pis, 9),
            accout_comm: four(pis, 13),
            note_comm: four(pis, 17),
            eth_address: five(pis, 21),
            amount: eight(pis, 26),
            asset_id: pis[34],
        };
        assert(r.flat() =~= pis@.take(DEPOSIT_TX_PIS as int));
        r
    }

    /// The commitment that the deposit adds: the account's.
    pub fn output_commitment(&self) -> (r: [T; 4])
        ensures
            r == self.accout_comm,
    {
        self.accout_comm
    }

    /// The inputs that are unique to a transaction in a batch: from `not_fake_tx`
    /// on.
    pub fn unique_pi_targets(&self) -> (r: Vec<T>)
        ensures
            r@ == self.unique(),
            r@ == self.flat().skip(8),
            r@.len() == DEPOSIT_TX_PIS - 8,
    {
        let mut v: Vec<T> = Vec::new();
        v.push(self.not_fake_tx);
        append(&mut v, &self.accin_null);
        append(&mut v, &self.accout_comm);
        append(&mut v, &self.note_comm);
        append(&mut v, &self.eth_address);
        append(&mut v, &self.amount);
        v.push(self.asset_id);
        assert(v@ =~= self.unique());
        assert(self.flat().skip(8) =~= self.unique());
        v
    }

    /// Inputs with the same flat list are the same.
    pub proof fn lemma_flat_injective(&self, other: &Self)
        requires
            self.flat() == other.flat(),
        ensures
            self.state_root@ == other.state_root@,
            self.mainpool_config_root@ == other.mainpool_config_root@,
            self.not_fake_tx == other.not_fake_tx,
            self.accin_null@ == other.accin_null@,
            self.accout_comm@ == other.accout_comm@,
            self.note_comm@ == other.note_comm@,
            self.eth_address@ == other.eth_address@,
            self.amount@ == other.amount@,
            self.asset_id == other.asset_id,
    {
        let (a, b) = (self.flat(), other.flat());
        assert(self.state_root@ =~= a.subrange(0, 4));
        assert(other.state_root@ =~= b.subrange(0, 4));
        assert(self.mainpool_config_root@ =~= a.subrange(4, 8));
        assert(other.mainpool_config_root@ =~= b.subrange(4, 8));
        assert(self.not_fake_tx == a[8]);
        assert(other.not_fake_tx == b[8]);
        assert(self.accin_null@ =~= a.subrange(9, 13));
        assert(other.accin_null@ =~= b.subrange(9, 13));
        assert(self.accout_comm@ =~= a.subrange(13, 17));
        assert(other.accout_comm@ =~= b.subrange(13, 17));
        assert(self.note_comm@ =~= a.subrange(17, 21));
        assert(other.note_comm@ =~= b.subrange(17, 21));
        assert(self.eth_address@ =~= a.subrange(21, 26));
        assert(other.eth_address@ =~= b.subrange(21, 26));
        assert(self.amount@ =~= a.subrange(26, 34));
        assert(other.amount@ =~= b.subrange(26, 34));
        assert(self.asset_id == a[34]);
        assert(other.asset_id == b[34]);
    }
}

/// The public inputs of a withdrawal.
pub struct WithdrawTxPublicTargets<T> {
    /// `[0..4]`: commitment tree root.
    pub root: [T; 4],
    /// `[4..8]`: main pool configuration tree root.
    pub mainpool_config_root: [T; 4],
    /// `[8]`: one for a real withdrawal, zero for a dummy/padding proof.
    pub not_fake_tx: T,
    /// `[9..13]`: input account nullifier.
    pub accin_null: [T; 4],
    /// `[13..17]`: output account commitment.
    pub accout_comm: [T; 4],
    /// `[17..24]`: asset of each withdrawal slot (zero for padding slots).
    pub asset_ids: [T; NOTE_BATCH],
    /// `[24..80]`: withdrawal amount of each slot (eight 32-bit limbs).
    pub withdrawal_amts: [[T; 8]; NOTE_BATCH],
    /// `[80..85]`: Ethereum destination address (five 32-bit limbs).
    pub w_acc_addr: [T; 5],
}

impl<T: Copy> WithdrawTxPublicTargets<T> {
    /// The inputs from `not_fake_tx` on.
    pub open spec fn unique(&self) -> Seq<T> {
        seq![self.not_fake_tx] + self.accin_null@ + self.accout_comm@ + self.asset_ids@ + blocks(
            self.withdrawal_amts,
        ) + self.w_acc_addr@
    }

    /// The inputs, in order.
    pub open spec fn flat(&self) -> Seq<T> {
        self.root@ + self.mainpool_config_root@ + self.unique()
    }

    /// The inputs, in the order in which the circuit registers them.
    pub fn register(&self) -> (r: Vec<T>)
        ensures
            r@ == self.flat(),
            r@.len() == WITHDRAW_TX_PIS,
    {
        let mut v: Vec<T> = Vec::new();
        append(&mut v, &self.root);
        append(&mut v, &self.mainpool_config_root);
        let mut u = self.unique_pi_targets();
        v.append(&mut u);
        assert(v@ =~= self.flat());
        v
    }

    /// Construct from a flat list of inputs, read in the order of `register`.
    pub fn from_pis(pis: &[T]) -> (r: Self)
        requires
            pis@.len() >= WITHDRAW_TX_PIS,
        ensures
            r.flat() == pis@.take(WITHDRAW_TX_PIS as int),
    {
        let r = WithdrawTxPublicTargets {
            root: four(pis, 0),
            mainpool_config_root: four(pis, 4),
            not_fake_tx: pis[8],
            accin_null: four(pis, 9),
            accout_comm: four(pis, 13),
            asset_ids: [pis[17], pis[18], pis[19], pis[20], pis[21], pis[22], pis[23]],
            withdrawal_amts: seven_eights(pis, 24),
            w_acc_addr: five(pis, 80),
        };
        assert(r.flat() =~= pis@.take(WITHDRAW_TX_PIS as int));
        r
    }

    /// The commitment that the withdrawal adds: the account's.
    pub fn output_commitment(&self) -> (r: [T; 4])
        ensures
            r == self.accout_comm,
    {
        self.accout_comm
    }

    /// The inputs that are unique to a transaction in a batch: from `not_fake_tx`
    /// on.
    pub fn unique_pi_targets(&self) -> (r: Vec<T>)
        ensures
            r@ == self.unique(),
            r@ == self.flat().skip(8),
            r@.len() == WITHDRAW_TX_PIS - 8,
    {
        let mut v: Vec<T> = Vec::new();
        v.push(self.not_fake_tx);
        append(&mut v, &self.accin_null);
        append(&mut v, &self.accout_comm);
        append(&mut v, &self.asset_ids);
        append_blocks(&mut v, &self.withdrawal_amts);
        append(&mut v, &self.w_acc_addr);
        assert(v@ =~= self.unique());
        assert(self.flat().skip(8) =~= self.unique());
        v
    }

    /// Inputs with the same flat list are the same.
    pub proof fn lemma_flat_injective(&self, other: &Self)
        requires
            self.flat() == other.flat(),
        ensures
            self.root@ == other.root@,
            self.mainpool_config_root@ == other.mainpool_config_root@,
            self.not_fake_tx == other.not_fake_tx,
            self.accin_null@ == other.accin_null@,
            self.accout_comm@ == other.accout_comm@,
            self.asset_ids@ == other.asset_ids@,
            blocks(self.withdrawal_amts) == blocks(other.withdrawal_amts),
            self.w_acc_addr@ == other.w_acc_addr@,
    {
        let (a, b) = (self.flat(), other.flat());
        assert(self.root@ =~= a.subrange(0, 4));
        assert(other.root@ =~= b.subrange(0, 4));
        assert(self.mainpool_config_root@ =~= a.subrange(4, 8));
        assert(other.mainpool_config_root@ =~= b.subrange(4, 8));
        assert(self.not_fake_tx == a[8]);
        assert(other.not_fake_tx == b[8]);
        assert(self.accin_null@ =~= a.subrange(9, 13));
        assert(other.accin_null@ =~= b.subrange(9, 13));
        assert(self.accout_comm@ =~= a.subrange(13, 17));
        assert(other.accout_comm@ =~= b.subrange(13, 17));
        assert(self.asset_ids@ =~= a.subrange(17, 24));
        assert(other.asset_ids@ =~= b.subrange(17, 24));
        assert(blocks(self.withdrawal_amts) =~= a.subrange(24, 80));
        assert(blocks(other.withdrawal_amts) =~= b.subrange(24, 80));
        assert(self.w_acc_addr@ =~= a.subrange(80, 85));
        assert(other.w_acc_addr@ =~= b.subrange(80, 85));
    }
}

/// Inputs shared by every transaction of the same kind in a batch: the two roots.
pub fn batch_common_pis(pis: &[F]) -> (r: Vec<F>)
    requires
        pis@.len() >= 8,
    ensures
        r@ == pis@.take(8),
{
    let mut v: Vec<F> = Vec::new();
    append(&mut v, &eight(pis, 0));
    assert(v@ =~= pis@.take(8));
    v
}

/// Inputs that are unique to a transaction in a batch: everything from element 8
/// on.
pub fn batch_unique_pis(pis: &[F]) -> (r: Vec<F>)
    requires
        pis@.len() >= 8,
    ensures
        r@ == pis@.skip(8),
{
    let mut v: Vec<F> = Vec::new();
    let mut i: usize = 8;
    while i < pis.len()
        invariant
            8 <= i <= pis@.len(),
            v@ == pis@.subrange(8, i as int),
        decreases pis@.len() - i,
    {
        v.push(pis[i]);
        i += 1;
        assert(v@ =~= pis@.subrange(8, i as int));
    }
    assert(v@ =~= pis@.skip(8));
    v
}

fn hash_at(pis: &[F], at: usize) -> (r: HashOutput)
    requires
        at + 4 <= pis@.len(),
    ensures
        r.elements() == pis@.subrange(at as int, at + 4),
{
    HashOutput::from_elements(four(pis, at))
}

/// `[0..4]`: commitment tree root.
pub fn act_root(pis: &[F]) -> (r: HashOutput)
    requires
        pis@.len() >= 17,
    ensures
        r.elements() == pis@.subrange(0, 4),
{
    hash_at(pis, 0)
}

/// `[4..8]`: main pool configuration tree root.
pub fn mainpool_config_root(pis: &[F]) -> (r: HashOutput)
    requires
        pis@.len() >= 17,
    ensures
        r.elements() == pis@.subrange(4, 8),
{
    hash_at(pis, 4)
}

/// `[8]`: one for a real transaction, zero for a dummy/padding proof.
pub fn not_fake_tx(pis: &[F]) -> (r: F)
    requires
        pis@.len() >= 17,
    ensures
        r == pis@[8],
{
    pis[8]
}

/// `[9..13]`: input account nullifier.
pub fn accin_nullifier(pis: &[F]) -> (r: HashOutput)
    requires
        pis@.len() >= 17,
    ensures
        r.elements() == pis@.subrange(9, 13),
{
    hash_at(pis, 9)
}

/// `[13..17]`: output account commitment.
pub fn accout_commitment(pis: &[F]) -> (r: HashOutput)
    requires
        pis@.len() >= 17,
    ensures
        r.elements() == pis@.subrange(13, 17),
{
    hash_at(pis, 13)
}

/// `[17..45]` of a private transaction: input note nullifiers.
pub fn input_note_nullifiers(pis: &[F]) -> (r: [HashOutput; NOTE_BATCH])
    requires
        pis@.len() >= PRIV_TX_PIS,
    ensures
        forall|i: int|
            0 <= i < 7 ==> (#[trigger] r@[i]).elements() == pis@.subrange(
                17 + 4 * i,
                17 + 4 * i + 4,
            ),
{
    [
        hash_at(pis, 17),
        hash_at(pis, 21),
        hash_at(pis, 25),
        hash_at(pis, 29),
        hash_at(pis, 33),
        hash_at(pis, 37),
        hash_at(pis, 41),
    ]
}

/// `[45..73]` of a private transaction: output note commitments.
pub fn output_note_commitments(pis: &[F]) -> (r: [HashOutput; NOTE_BATCH])
    requires
        pis@.len() >= PRIV_TX_PIS,
    ensures
        forall|i: int|
            0 <= i < 7 ==> (#[trigger] r@[i]).elements() == pis@.subrange(
                45 + 4 * i,
                45 + 4 * i + 4,
            ),
{
    [
        hash_at(pis, 45),
        hash_at(pis, 49),
        hash_at(pis, 53),
        hash_at(pis, 57),
        hash_at(pis, 61),
        hash_at(pis, 65),
        hash_at(pis, 69),
    ]
}

/// `[17..21]` of a deposit: deposit note commitment.
pub fn note_commitment(pis: &[F]) -> (r: HashOutput)
    requires
        pis@.len() >= DEPOSIT_TX_PIS,
    ensures
        r.elements() == pis@.subrange(17, 21),
{
    hash_at(pis, 17)
}

/// The `k`-th byte of an integer.
pub open spec fn byte_of(x: int, k: int) -> int {
    if k == 0 {
        x % 0x100
    } else if k == 1 {
        (x / 0x100) % 0x100
    } else if k == 2 {
        (x / 0x1_0000) % 0x100
    } else {
        (x / 0x100_0000) % 0x100
    }
}

/// Whether 20 bytes are the low 32 bits of five elements, least significant byte
/// first.
pub open spec fn spells_address(e: Seq<F>, b: Seq<u8>) -> bool {
    &&& b.len() == 20
    &&& forall|i: int, k: int|
        #![trigger byte_of(e[i]@, k)]
        0 <= i < 5 && 0 <= k < 4 ==> b[4 * i + k] == byte_of(e[i]@, k)
}

fn address_at(pis: &[F], at: usize) -> (r: [u8; 20])
    requires
        at <= 100,
        at + 5 <= pis@.len(),
    ensures
        spells_address(pis@.subrange(at as int, at + 5), r@),
{
    let mut out = [0u8; 20];
    let ghost e = pis@.subrange(at as int, at + 5);
    let mut i: usize = 0;
    while i < 5
        invariant
            i <= 5,
            at <= 100,
            at + 5 <= pis@.len(),
            e == pis@.subrange(at as int, at + 5),
            forall|j: int, k: int|
                #![trigger byte_of(e[j]@, k)]
                0 <= j < i && 0 <= k < 4 ==> out@[4 * j + k] == byte_of(e[j]@, k),
        decreases 5 - i,
    {
        let x: u64 = pis[at + i].to_canonical_u64();
        let ghost before = out@;
        out[4 * i] = (x % 0x100) as u8;
        out[4 * i + 1] = ((x / 0x100) % 0x100) as u8;
        out[4 * i + 2] = ((x / 0x1_0000) % 0x100) as u8;
        out[4 * i + 3] = ((x / 0x100_0000) % 0x100) as u8;
        proof {
            assert(e[i as int]@ == x);
            assert forall|j: int, k: int|
                #![trigger byte_of(e[j]@, k)]
                0 <= j < i + 1 && 0 <= k < 4 implies out@[4 * j + k] == byte_of(e[j]@, k) by {
                if j < i {
                    assert(before[4 * j + k] == byte_of(e[j]@, k));
                    assert(4 * j + k < 4 * i);
                    assert(out@[4 * j + k] == before[4 * j + k]);
                }
            }
        }
        i += 1;
    }
    out
}

/// `[21..26]` of a deposit: Ethereum address.
pub fn eth_address(pis: &[F]) -> (r: [u8; 20])
    requires
        pis@.len() >= DEPOSIT_TX_PIS,
    ensures
        spells_address(pis@.subrange(21, 26), r@),
{
    address_at(pis, 21)
}

/// The bytes read back from the elements of an address are the address.
pub proof fn lemma_address_roundtrip(b: Seq<u8>, r: Seq<u8>)
    requires
        b.len() == 20,
        spells_address(h160_elements(b), r),
    ensures
        r == b,
{
    assert forall|i: int| 0 <= i < 20 implies r[i] == b[i] by {
        let j = i / 4;
        let k = i % 4;
        let e = h160_elements(b);
        assert(r[4 * j + k] == byte_of(e[j]@, k));
        let x = u32_of_le(b, 4 * j);
        assert(0 <= x < 0x1_0000_0000);
        vstd::arithmetic::div_mod::lemma_small_mod(x as nat, goldilocks() as nat);
        assert(e[j] == F::of(x));
        lemma_bytes_of_u32(b[4 * j] as int, b[4 * j + 1] as int, b[4 * j + 2] as int, b[4 * j + 3] as int);
    }
    assert(r =~= b);
}

proof fn lemma_bytes_of_u32(b0: int, b1: int, b2: int, b3: int)
    requires
        0 <= b0 < 0x100,
        0 <= b1 < 0x100,
        0 <= b2 < 0x100,
        0 <= b3 < 0x100,
    ensures
        ({
            let x = b0 + b1 * 0x100 + b2 * 0x1_0000 + b3 * 0x100_0000;
            &&& byte_of(x, 0) == b0
            &&& byte_of(x, 1) == b1
            &&& byte_of(x, 2) == b2
            &&& byte_of(x, 3) == b3
        }),
{
    let x = b0 + b1 * 0x100 + b2 * 0x1_0000 + b3 * 0x100_0000;
    let q1 = b1 + b2 * 0x100 + b3 * 0x1_0000;
    let q2 = b2 + b3 * 0x100;
    vstd::arithmetic::div_mod::lemma_fundamental_div_mod_converse(x, 0x100, q1, b0);
    vstd::arithmetic::div_mod::lemma_fundamental_div_mod_converse(q1, 0x100, q2, b1);
    vstd::arithmetic::div_mod::lemma_fundamental_div_mod_converse(q2, 0x100, b3, b2);
    vstd::arithmetic::div_mod::lemma_fundamental_div_mod_converse(x, 0x1_0000, q2, b0 + b1 * 0x100);
    vstd::arithmetic::div_mod::lemma_fundamental_div_mod_converse(
        x,
        0x100_0000,
        b3,
        b0 + b1 * 0x100 + b2 * 0x1_0000,
    );
    vstd::arithmetic::div_mod::lemma_small_mod(b3 as nat, 0x100);
}

/// The 64-bit word of the low halves of two elements.
pub open spec fn word_of(lo: F, hi: F) -> int {
    lo@ % 0x1_0000_0000 + (hi@ % 0x1_0000_0000) * 0x1_0000_0000
}

fn word_at(pis: &[F], at: usize) -> (r: u64)
    requires
        at + 2 <= pis@.len(),
    ensures
        r == word_of(pis@[at as int], pis@[at + 1]),
{
    pis[at].to_canonical_u64() % 0x1_0000_0000 + (pis[at + 1].to_canonical_u64() % 0x1_0000_0000)
        * 0x1_0000_0000
}

/// Whether a number is spelled by the low 32 bits of eight elements.
pub open spec fn spells_amount(e: Seq<F>, x: U256) -> bool {
    &&& x.0 == word_of(e[0], e[1])
    &&& x.1 == word_of(e[2], e[3])
    &&& x.2 == word_of(e[4], e[5])
    &&& x.3 == word_of(e[6], e[7])
}

fn amount_at(pis: &[F], at: usize) -> (r: U256)
    requires
        at <= 100,
        at + 8 <= pis@.len(),
    ensures
        spells_amount(pis@.subrange(at as int, at + 8), r),
{
    U256(word_at(pis, at), word_at(pis, at + 2), word_at(pis, at + 4), word_at(pis, at + 6))
}

/// `[26..34]` of a deposit: deposit amount.
pub fn amount(pis: &[F]) -> (r: U256)
    requires
        pis@.len() >= DEPOSIT_TX_PIS,
    ensures
        spells_amount(pis@.subrange(26, 34), r),
{
    amount_at(pis, 26)
}

/// The amount read back from the limbs of a number is the number.
pub proof fn lemma_amount_roundtrip(x: U256, r: U256)
    requires
        spells_amount(x.limbs(), r),
    ensures
        r == x,
{
    crate::u256::lemma_limbs_spell_value(x);
    let l = x.limbs();
    assert(0 <= l[0]@ < 0x1_0000_0000 && 0 <= l[1]@ < 0x1_0000_0000);
    assert(0 <= l[2]@ < 0x1_0000_0000 && 0 <= l[3]@ < 0x1_0000_0000);
    assert(0 <= l[4]@ < 0x1_0000_0000 && 0 <= l[5]@ < 0x1_0000_0000);
    assert(0 <= l[6]@ < 0x1_0000_0000 && 0 <= l[7]@ < 0x1_0000_0000);
    assert(r.limbs() =~= l) by {
        lemma_word_limbs(x.0, l[0], l[1]);
        lemma_word_limbs(x.1, l[2], l[3]);
        lemma_word_limbs(x.2, l[4], l[5]);
        lemma_word_limbs(x.3, l[6], l[7]);
    }
    crate::u256::lemma_limbs_injective(r, x);
}

proof fn lemma_word_limbs(w: u64, lo: F, hi: F)
    requires
        lo == F::of(w as int % 0x1_0000_0000),
        hi == F::of(w as int / 0x1_0000_0000),
    ensures
        word_of(lo, hi) == w,
{
    vstd::arithmetic::div_mod::lemma_small_mod(
        (w as int % 0x1_0000_0000) as nat,
        goldilocks() as nat,
    );
    vstd::arithmetic::div_mod::lemma_small_mod(
        (w as int / 0x1_0000_0000) as nat,
        goldilocks() as nat,
    );
}

/// `[34]` of a deposit: asset being deposited.
pub fn asset_id(pis: &[F]) -> (r: AssetId)
    requires
        pis@.len() >= DEPOSIT_TX_PIS,
    ensures
        r.0 == pis@[34],
{
    AssetId(pis[34])
}

/// `[17..24]` of a withdrawal: asset of each slot (zero for padding slots).
pub fn asset_ids(pis: &[F]) -> (r: [AssetId; NOTE_BATCH])
    requires
        pis@.len() >= WITHDRAW_TX_PIS,
    ensures
        forall|i: int| 0 <= i < 7 ==> (#[trigger] r@[i]).0 == pis@[17 + i],
{
    [
        AssetId(pis[17]),
        AssetId(pis[18]),
        AssetId(pis[19]),
        AssetId(pis[20]),
        AssetId(pis[21]),
        AssetId(pis[22]),
        AssetId(pis[23]),
    ]
}

/// `[24..80]` of a withdrawal: amount of each slot.
pub fn withdrawal_amts(pis: &[F]) -> (r: [U256; NOTE_BATCH])
    requires
        pis@.len() >= WITHDRAW_TX_PIS,
    ensures
        forall|i: int|
            0 <= i < 7 ==> spells_amount(
                pis@.subrange(24 + 8 * i, 24 + 8 * i + 8),
                #[trigger] r@[i],
            ),
{
    [
        amount_at(pis, 24),
        amount_at(pis, 32),
        amount_at(pis, 40),
        amount_at(pis, 48),
        amount_at(pis, 56),
        amount_at(pis, 64),
        amount_at(pis, 72),
    ]
}

/// `[80..85]` of a withdrawal: Ethereum destination address.
pub fn withdrawal_address(pis: &[F]) -> (r: [u8; 20])
    requires
        pis@.len() >= WITHDRAW_TX_PIS,
    ensures
        spells_address(pis@.subrange(80, 85), r@),
{
    address_at(pis, 80)
}

} // verus!
