//! The slots of a withdrawal.
//!
//! A withdrawal draws on one asset per slot. Each slot updates one leaf of the
//! account's state tree, and starts from the tree that the slot before it left.
use vstd::prelude::*;

use crate::account::StandardAccount;
use crate::ast::{
    balance_of, distinct_assets, has_asset, lemma_balance_of, set_balance, AccountStateTree,
    AccountStateTreeLeaf, AssetId,
};
use crate::field::F;
use crate::hash::is_sponge;
use crate::params::NOTE_BATCH;
use crate::tree::MerkleProof;
use crate::u256::U256;

verus! {

/// What a list of withdrawals takes of one asset in all.
pub open spec fn total_of(w: Seq<(AssetId, U256)>, a: AssetId) -> nat
    decreases w.len(),
{
    if w.len() == 0 {
        0
    } else {
        total_of(w.drop_last(), a) + (if w.last().0 == a {
            w.last().1.value()
        } else {
            0
        })
    }
}

/// Whether every withdrawn asset is there, and none is overdrawn in all.
pub open spec fn withdrawable(assets: Seq<AccountStateTreeLeaf>, w: Seq<(AssetId, U256)>) -> bool {
    forall|i: int|
        0 <= i < w.len() ==> has_asset(assets, (#[trigger] w[i]).0) && total_of(w, w[i].0)
            <= balance_of(assets, w[i].0)
}

/// Whether every withdrawn asset keeps a balance.
pub open spec fn leaves_balances(
    assets: Seq<AccountStateTreeLeaf>,
    w: Seq<(AssetId, U256)>,
) -> bool {
    forall|i: int|
        0 <= i < w.len() ==> total_of(w, (#[trigger] w[i]).0) < balance_of(assets, w[i].0)
}

/// Whether all withdrawals can be made: every asset is there and none is overdrawn.
pub fn can_withdraw(ast: &AccountStateTree, w: &[(AssetId, U256)]) -> (r: bool)
    requires
        ast.shape(),
    ensures
        r == withdrawable(ast@, w@),
{
    let mut i: usize = 0;
    while i < w.len()
        invariant
            i <= w@.len(),
            ast.shape(),
            forall|k: int|
                0 <= k < i ==> has_asset(ast@, (#[trigger] w@[k]).0) && total_of(w@, w@[k].0)
                    <= balance_of(ast@, w@[k].0),
        decreases w@.len() - i,
    {
        let asset_id = w[i].0;
        if ast.amount_for(asset_id).is_none() {
            assert(!has_asset(ast@, w@[i as int].0));
            return false;
        }
        let mut left = ast.balance(asset_id);
        let mut j: usize = 0;
        while j < w.len()
            invariant
                i < w@.len(),
                j <= w@.len(),
                asset_id == w@[i as int].0,
                left.value() == balance_of(ast@, asset_id) - total_of(
                    w@.take(j as int),
                    asset_id,
                ),
            decreases w@.len() - j,
        {
            proof {
                assert(w@.take(j + 1).drop_last() =~= w@.take(j as int));
                lemma_total_prefix(w@, j + 1, asset_id);
            }
            if w[j].0 == asset_id {
                left = match left.checked_sub(w[j].1) {
                    Some(d) => d,
                    None => {
                        assert(total_of(w@, w@[i as int].0) > balance_of(ast@, w@[i as int].0));
                        return false;
                    },
                };
            }
            j += 1;
        }
        assert(w@.take(j as int) =~= w@);
        i += 1;
    }
    true
}

/// Whether every balance is what it was less what was withdrawn of the asset.
pub open spec fn drained(
    before: Seq<AccountStateTreeLeaf>,
    w: Seq<(AssetId, U256)>,
    after: Seq<AccountStateTreeLeaf>,
) -> bool {
    &&& after.len() == before.len()
    &&& forall|k: int|
        0 <= k < before.len() ==> {
            &&& (#[trigger] after[k]).asset_id == before[k].asset_id
            &&& after[k].amount.value() == before[k].amount.value() - total_of(
                w,
                before[k].asset_id,
            )
        }
}

/// The withdrawals of the slots before `i`.
pub open spec fn before_slot(w: Seq<(AssetId, U256)>, i: int) -> Seq<(AssetId, U256)> {
    if i < w.len() {
        w.take(i)
    } else {
        w
    }
}

/// A prefix takes no more of an asset than the whole list.
pub proof fn lemma_total_prefix(w: Seq<(AssetId, U256)>, n: int, a: AssetId)
    requires
        0 <= n <= w.len(),
    ensures
        total_of(w.take(n), a) <= total_of(w, a),
    decreases w.len() - n,
{
    if n < w.len() {
        lemma_total_prefix(w, n + 1, a);
        assert(w.take(n + 1).drop_last() =~= w.take(n));
    } else {
        assert(w.take(n) =~= w);
    }
}

/// The balance of a withdrawn asset is what it was less what was withdrawn of it.
pub proof fn lemma_drained_balance(
    before: Seq<AccountStateTreeLeaf>,
    w: Seq<(AssetId, U256)>,
    after: Seq<AccountStateTreeLeaf>,
    a: AssetId,
)
    requires
        distinct_assets(before),
        drained(before, w, after),
        has_asset(before, a),
    ensures
        distinct_assets(after),
        has_asset(after, a),
        balance_of(after, a) == balance_of(before, a) - total_of(w, a),
{
    assert forall|i: int, j: int| 0 <= i < j < after.len() implies (#[trigger] after[i]).asset_id
        != (#[trigger] after[j]).asset_id by {
        assert(before[i].asset_id != before[j].asset_id);
    }
    lemma_balance_of(before, a);
    lemma_balance_of(after, a);
    let k = choose|k: int| 0 <= k < before.len() && (#[trigger] before[k]).asset_id == a;
    assert(after[k].asset_id == a);
}

/// One more withdrawal.
proof fn lemma_drain_step(
    before: Seq<AccountStateTreeLeaf>,
    w: Seq<(AssetId, U256)>,
    i: int,
    mid: Seq<AccountStateTreeLeaf>,
    x: U256,
    after: Seq<AccountStateTreeLeaf>,
)
    requires
        distinct_assets(before),
        0 <= i < w.len(),
        has_asset(before, w[i].0),
        drained(before, w.take(i), mid),
        x.value() == balance_of(mid, w[i].0) - w[i].1.value(),
        set_balance(mid, w[i].0, x, after),
    ensures
        drained(before, w.take(i + 1), after),
{
    let a = w[i].0;
    let leaf = AccountStateTreeLeaf { asset_id: a, amount: x };
    lemma_drained_balance(before, w.take(i), mid, a);
    lemma_balance_of(mid, a);
    lemma_balance_of(before, a);
    let j = choose|j: int|
        0 <= j < mid.len() && (#[trigger] mid[j]).asset_id == a && after == mid.update(j, leaf);
    assert(w.take(i + 1).drop_last() =~= w.take(i));
    assert forall|k: int| 0 <= k < before.len() implies {
        &&& (#[trigger] after[k]).asset_id == before[k].asset_id
        &&& after[k].amount.value() == before[k].amount.value() - total_of(
            w.take(i + 1),
            before[k].asset_id,
        )
    } by {
        assert(mid[k].asset_id == before[k].asset_id);
        if k != j {
            if before[k].asset_id == a {
                assert(before[j].asset_id == mid[j].asset_id);
                if k < j {
                    assert(before[k].asset_id != before[j].asset_id);
                } else {
                    assert(before[j].asset_id != before[k].asset_id);
                }
            }
        } else {
            assert(before[j].asset_id == a);
            assert(mid[j].amount.value() == balance_of(mid, a));
        }
    }
}

/// Balances drained in the same way are the same.
pub proof fn lemma_drained_unique(
    before: Seq<AccountStateTreeLeaf>,
    w: Seq<(AssetId, U256)>,
    a: Seq<AccountStateTreeLeaf>,
    b: Seq<AccountStateTreeLeaf>,
)
    requires
        drained(before, w, a),
        drained(before, w, b),
    ensures
        a == b,
{
    assert forall|k: int| 0 <= k < before.len() implies a[k] == b[k] by {
        crate::priv_tx::lemma_value_injective(a[k].amount, b[k].amount);
        assert(a[k].asset_id == b[k].asset_id);
    }
    assert(a =~= b);
}

/// A slot of a withdrawal.
pub struct WithdrawalSlot {
    pub asset_id: AssetId,
    pub withdrawal_amt: U256,
    /// Balance before the slot.
    pub accin_amt: U256,
    /// Balance after the slot.
    pub accout_amt: U256,
    /// Whether the asset is there before the slot (false for a padding slot).
    pub exists_in: bool,
    /// Whether a balance is left after the slot.
    pub exists_out: bool,
    /// Proof of the leaf of the slot, in the state tree before the slot.
    pub ast_proof: MerkleProof,
}

/// The slots of a withdrawal, and the account after it.
pub struct WithdrawalSlots {
    pub slots: Vec<WithdrawalSlot>,
    pub accout: StandardAccount,
}

/// Whether a tree is the state tree before slot `i`, and an index the place of the
/// slot's leaf: that of its asset, or the next free one.
pub open spec fn slot_leaf<H: Fn(Vec<F>, usize) -> Vec<F>>(
    h: H,
    accin: &StandardAccount,
    w: Seq<(AssetId, U256)>,
    i: int,
    c: AccountStateTree,
    index: nat,
) -> bool {
    &&& c.wf(h)
    &&& drained(accin.ast@, before_slot(w, i), c@)
    &&& index < 1024
    &&& if i < w.len() {
        index < c@.len() && c@[index as int].asset_id == w[i].0
    } else {
        index == c@.len()
    }
}

/// Whether a proof is that of the leaf of slot `i`.
pub open spec fn slot_proof<H: Fn(Vec<F>, usize) -> Vec<F>>(
    h: H,
    accin: &StandardAccount,
    w: Seq<(AssetId, U256)>,
    i: int,
    p: MerkleProof,
) -> bool {
    exists|c: AccountStateTree, index: nat| #[trigger]
        slot_leaf(h, accin, w, i, c, index) && c.has_proof(index, p)
}

/// Whether a slot is the one of withdrawal `i`, or a padding slot.
pub open spec fn slot_of(
    accin: &StandardAccount,
    w: Seq<(AssetId, U256)>,
    i: int,
    s: WithdrawalSlot,
) -> bool {
    if i < w.len() {
        let (a, amt) = w[i];
        &&& s.asset_id == a
        &&& s.withdrawal_amt == amt
        &&& s.accin_amt.value() == balance_of(accin.ast@, a) - total_of(w.take(i), a)
        &&& s.accout_amt.value() == s.accin_amt.value() - amt.value()
        &&& s.exists_in
        &&& s.exists_out == (s.accout_amt.value() > 0)
    } else {
        &&& s.asset_id == AssetId(F::of(0))
        &&& s.withdrawal_amt == U256(0, 0, 0, 0)
        &&& s.accin_amt == U256(0, 0, 0, 0)
        &&& s.accout_amt == U256(0, 0, 0, 0)
        &&& !s.exists_in
        &&& !s.exists_out
    }
}

impl WithdrawalSlots {
    /// Whether these are the slots of the withdrawals from an account.
    pub open spec fn computed<H: Fn(Vec<F>, usize) -> Vec<F>>(
        &self,
        h: H,
        accin: &StandardAccount,
        w: Seq<(AssetId, U256)>,
    ) -> bool {
        &&& self.slots@.len() == NOTE_BATCH
        &&& forall|i: int|
            0 <= i < NOTE_BATCH ==> slot_of(accin, w, i, #[trigger] self.slots@[i]) && slot_proof(
                h,
                accin,
                w,
                i,
                self.slots@[i].ast_proof,
            )
        &&& self.accout.wf(h)
        &&& self.accout.private_identifier == accin.private_identifier
        &&& self.accout.subpool_id == accin.subpool_id
        &&& self.accout.nonce.0 == accin.nonce.0 + F::of(1)
        &&& self.accout.spend_auth == accin.spend_auth
        &&& self.accout.consume_auth == accin.consume_auth
        &&& drained(accin.ast@, w, self.accout.ast@)
    }
}

/// Draws on one asset of a state tree. The proof is taken before the update, so
/// that its siblings are those of the tree before.
fn draw<H: Fn(Vec<F>, usize) -> Vec<F>>(
    h: &H,
    ast: &mut AccountStateTree,
    asset_id: AssetId,
    amt: U256,
) -> (r: (WithdrawalSlot, Ghost<nat>))
    requires
        is_sponge(*h),
        old(ast).wf(*h),
        has_asset(old(ast)@, asset_id),
        amt.value() <= balance_of(old(ast)@, asset_id),
    ensures
        final(ast).wf(*h),
        r.0.asset_id == asset_id,
        r.0.withdrawal_amt == amt,
        r.0.accin_amt.value() == balance_of(old(ast)@, asset_id),
        r.0.accout_amt.value() == r.0.accin_amt.value() - amt.value(),
        r.0.exists_in,
        r.0.exists_out == (r.0.accout_amt.value() > 0),
        r.1@ < old(ast)@.len(),
        r.1@ < 1024,
        old(ast)@[r.1@ as int].asset_id == asset_id,
        old(ast).has_proof(r.1@, r.0.ast_proof),
        set_balance(old(ast)@, asset_id, r.0.accout_amt, final(ast)@),
{
    proof {
        ast.lemma_wf(*h);
        ast.lemma_shape();
        lemma_balance_of(ast@, asset_id);
    }
    let (index, old_bal): (usize, U256) = match ast.amount_for(asset_id) {
        Some(p) => p,
        None => (0, U256::zero()),
    };
    let ast_proof = ast.merkle_proof_at(index);
    let new_bal = match old_bal.checked_sub(amt) {
        Some(d) => d,
        None => U256::zero(),
    };
    let _ = ast.insert_or_update_asset(h, asset_id, new_bal);
    (
        WithdrawalSlot {
            asset_id,
            withdrawal_amt: amt,
            accin_amt: old_bal,
            accout_amt: new_bal,
            exists_in: true,
            exists_out: !new_bal.is_zero(),
            ast_proof,
        },
        Ghost(index as nat),
    )
}

/// Derive the slots of a withdrawal.
///
/// Padding slots (beyond the withdrawals) hold zeros and a proof of the next free
/// leaf: no balance changes.
pub fn compute_withdrawal_slots<H: Fn(Vec<F>, usize) -> Vec<F>>(
    h: &H,
    accin: &StandardAccount,
    withdrawals: &[(AssetId, U256)],
) -> (r: WithdrawalSlots)
    requires
        is_sponge(*h),
        accin.wf(*h),
        withdrawals@.len() <= NOTE_BATCH,
        withdrawals@.len() == NOTE_BATCH || accin.ast@.len() < 1024,
        withdrawable(accin.ast@, withdrawals@),
    ensures
        r.computed(*h, accin, withdrawals@),
{
    let ghost w = withdrawals@;
    let mut current = accin.ast.duplicate();
    let mut slots: Vec<WithdrawalSlot> = Vec::new();
    proof {
        current.lemma_same_wf(&accin.ast, *h);
        accin.ast.lemma_wf(*h);
        accin.ast.lemma_shape();
        assert(before_slot(w, 0) =~= Seq::empty());
    }
    let mut i: usize = 0;
    while i < NOTE_BATCH
        invariant
            i <= NOTE_BATCH,
            w == withdrawals@,
            is_sponge(*h),
            w.len() <= NOTE_BATCH,
            w.len() == NOTE_BATCH || accin.ast@.len() < 1024,
            withdrawable(accin.ast@, w),
            distinct_assets(accin.ast@),
            current.wf(*h),
            drained(accin.ast@, before_slot(w, i as int), current@),
            slots@.len() == i,
            forall|k: int|
                0 <= k < i ==> slot_of(accin, w, k, #[trigger] slots@[k]) && slot_proof(
                    *h,
                    accin,
                    w,
                    k,
                    slots@[k].ast_proof,
                ),
        decreases NOTE_BATCH - i,
    {
        let ghost before = current;
        if i < withdrawals.len() {
            let asset_id = withdrawals[i].0;
            let amt = withdrawals[i].1;
            proof {
                assert(has_asset(accin.ast@, w[i as int].0));
                lemma_drained_balance(accin.ast@, w.take(i as int), current@, asset_id);
                lemma_total_prefix(w, i + 1, asset_id);
                assert(w.take(i + 1).drop_last() =~= w.take(i as int));
            }
            let (slot, Ghost(index)) = draw(h, &mut current, asset_id, amt);
            proof {
                assert(slot_leaf(*h, accin, w, i as int, before, index));
                assert(slot_proof(*h, accin, w, i as int, slot.ast_proof));
                lemma_drain_step(accin.ast@, w, i as int, before@, slot.accout_amt, current@);
                if i + 1 == w.len() {
                    assert(w.take(i + 1) =~= w);
                }
            }
            slots.push(slot);
        } else {
            proof {
                current.lemma_wf(*h);
                current.lemma_shape();
            }
            let index: usize = current.next_index();
            let ast_proof = current.merkle_proof_at(index);
            proof {
                assert(slot_leaf(*h, accin, w, i as int, current, index as nat));
                assert(slot_proof(*h, accin, w, i as int, ast_proof));
            }
            slots.push(
                WithdrawalSlot {
                    asset_id: AssetId::zero(),
                    withdrawal_amt: U256::zero(),
                    accin_amt: U256::zero(),
                    accout_amt: U256::zero(),
                    exists_in: false,
                    exists_out: false,
                    ast_proof,
                },
            );
        }
        i += 1;
    }
    proof {
        current.lemma_wf(*h);
    }
    let mut accout = accin.clone_with_incremented_nonce();
    accout.ast = current;
    assert(before_slot(w, NOTE_BATCH as int) == w);
    WithdrawalSlots { slots, accout }
}

} // verus!
