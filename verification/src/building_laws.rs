//! What the builders do to balances, identities and keys, and what they refuse.
use vstd::prelude::*;

use crate::account::{PublicIdentifier, StandardAccount};
use crate::addition::{checked_sum, sum_of};
use crate::ast::{
    balance_of, distinct_assets, has_asset, lemma_balance_of, lemma_set_balance, set_balance,
    AccountStateTree, AccountStateTreeLeaf, AssetId,
};
use crate::built_priv_tx::{return_note, PlacedNote};
use crate::deposit_builder::{BuiltRealDepositTx, DepositTxBuilder};
use crate::ecgfp5::compressed;
use crate::errors::{
    DepositTxBuilderError, FreshAccTxBuilderError, SpendTxBuilderError, TxSignError,
    WithdrawTxBuilderError,
};
use crate::field::F;
use crate::freshacc_builder::{BuiltFreshAccTx, FreshAccTxBuilder};
use crate::note::{DepositNote, StandardNote};
use crate::scalar::Scalar;
use crate::schnorr::{is_signature, PrivateKey};
use crate::spend_builder::{notes_of, BuiltSpendTx, SpendTxBuilder};
use crate::tx_witness::amounts_of;
use crate::u256::U256;
use crate::withdraw_builder::{
    all_within_balance, overdraws, within_balance, BuiltWithdrawRealTx, WithdrawRealTxBuilder,
};
use crate::withdraw_slots::{drained, lemma_drained_balance, total_of};

verus! {

/// A sum takes in every number once: nothing gives zero, and one more number adds
/// its value.
pub proof fn lemma_sum_grows(s: Seq<U256>, x: U256)
    ensures
        sum_of(Seq::empty()) == 0,
        sum_of(s.push(x)) == sum_of(s) + x.value(),
{
    assert(s.push(x).drop_last() =~= s);
}

/// What is withdrawn of an asset takes in every withdrawal of it once, and none of
/// another asset.
pub proof fn lemma_total_grows(w: Seq<(AssetId, U256)>, a: AssetId, x: U256, other: AssetId)
    ensures
        total_of(Seq::empty(), a) == 0,
        total_of(w.push((a, x)), a) == total_of(w, a) + x.value(),
        other != a ==> total_of(w.push((a, x)), other) == total_of(w, other),
{
    assert(w.push((a, x)).drop_last() =~= w);
}

/// The balance that a tree gives for an asset is the amount of the asset's leaf, or
/// zero where no leaf has the asset.
pub proof fn lemma_balance_read(t: &AccountStateTree, a: AssetId, r: U256)
    requires
        t.shape(),
        call_ensures(AccountStateTree::balance, (t, a), r),
    ensures
        r.value() == balance_of(t@, a),
        forall|i: int|
            0 <= i < t@.len() && (#[trigger] t@[i]).asset_id == a ==> r.value()
                == t@[i].amount.value(),
        (forall|i: int| 0 <= i < t@.len() ==> (#[trigger] t@[i]).asset_id != a) ==> r.value() == 0,
{
    t.lemma_shape();
    lemma_balance_of(t@, a);
}

/// A sum is given exactly where it fits in 256 bits, and is then the sum itself.
pub proof fn lemma_checked_sum(s: &[U256], r: Option<U256>)
    requires
        call_ensures(checked_sum, (s,), r),
    ensures
        r is Some <==> sum_of(s@)
            < 0x1_0000_0000_0000_0000_0000_0000_0000_0000_0000_0000_0000_0000_0000_0000_0000_0000int,
        r matches Some(x) ==> x.value() == sum_of(s@),
{
}

/// The amounts of placed notes.
pub open spec fn placed_amounts(s: Seq<PlacedNote>) -> Seq<U256> {
    Seq::new(s.len(), |i: int| s[i].note.amt)
}

/// The amounts of notes.
pub open spec fn plain_amounts(s: Seq<StandardNote>) -> Seq<U256> {
    Seq::new(s.len(), |i: int| s[i].amt)
}

/// A spend transaction is built exactly where there is a note, the dummies are
/// filled in, the balance and the inputs together fit in 256 bits, and the outputs
/// take no more than these. Nothing is then made or lost: the balance after and the
/// outputs are together the balance before and the inputs, as integers, and every
/// other balance stays. The identity and the keys stay, and the nonce goes up by one.
pub proof fn lemma_spend_conserves<H: Fn(Vec<F>, usize) -> Vec<F>>(
    h: H,
    b: SpendTxBuilder,
    r: Result<BuiltSpendTx, SpendTxBuilderError>,
    other: AssetId,
)
    requires
        b.accin.ast.shape(),
        call_ensures(SpendTxBuilder::build::<H>, (b, &h), r),
    ensures
        ({
            let before = balance_of(b.accin.ast@, b.asset_id);
            let inputs = sum_of(placed_amounts(b.input_notes@));
            let outputs = sum_of(plain_amounts(b.output_notes@));
            &&& r is Ok <==> {
                &&& b.input_notes@.len() + b.output_notes@.len() + b.rejected_notes@.len() > 0
                &&& before + inputs < 0x1_0000_0000_0000_0000_0000_0000_0000_0000_0000_0000_0000_0000_0000_0000_0000_0000int
                &&& outputs <= before + inputs
                &&& b.dinotes is Some
                &&& b.donotes is Some
            }
            &&& r matches Ok(t) ==> {
                &&& balance_of(t.accout.ast@, b.asset_id) + outputs == before + inputs
                &&& other != b.asset_id ==> balance_of(t.accout.ast@, other) == balance_of(
                    b.accin.ast@,
                    other,
                )
                &&& t.accin == b.accin
                &&& t.accout.private_identifier == b.accin.private_identifier
                &&& t.accout.subpool_id == b.accin.subpool_id
                &&& t.accout.nonce.0@ == (b.accin.nonce.0@ + 1) % 0xffff_ffff_0000_0001
                &&& t.accout.spend_auth == b.accin.spend_auth
                &&& t.accout.consume_auth == b.accin.consume_auth
                &&& t.rejected_inotes == b.rejected_notes
                &&& t.inotes == b.input_notes
                &&& t.onotes == b.output_notes
                &&& t.subpool_id == b.accin.subpool_id
            }
        }),
{
    assert(placed_amounts(b.input_notes@) =~= amounts_of(notes_of(b.input_notes@)));
    assert(plain_amounts(b.output_notes@) =~= amounts_of(b.output_notes@));
    b.accin.ast.lemma_shape();
    if let Ok(t) = r {
        let amt = choose|amt: U256|
            amt.value() == b.old_balance() + b.delta_in() - b.delta_out() && #[trigger] set_balance(
                b.accin.ast@,
                b.asset_id,
                amt,
                t.accout.ast@,
            );
        lemma_set_balance(b.accin.ast@, b.asset_id, amt, t.accout.ast@, b.asset_id);
        lemma_set_balance(b.accin.ast@, b.asset_id, amt, t.accout.ast@, other);
    }
}

/// A deposit raises the balance of its asset by its amount, as integers, and keeps
/// every other balance, the identity and the keys; the nonce goes up by one. It is
/// refused for an account that is not active or that is not the recipient.
pub proof fn lemma_deposit_credits<H: Fn(Vec<F>, usize) -> Vec<F>>(
    h: H,
    b: DepositTxBuilder,
    t: BuiltRealDepositTx,
    other: AssetId,
)
    requires
        b.accin.ast.shape(),
        call_ensures(DepositTxBuilder::build::<H>, (b, &h), t),
    ensures
        balance_of(t.accout.ast@, b.deposit_note.asset_id) == balance_of(
            b.accin.ast@,
            b.deposit_note.asset_id,
        ) + b.deposit_note.amount.value(),
        other != b.deposit_note.asset_id ==> balance_of(t.accout.ast@, other) == balance_of(
            b.accin.ast@,
            other,
        ),
        ({
                &&& t.accin == b.accin
                &&& t.accout.private_identifier == b.accin.private_identifier
                &&& t.accout.subpool_id == b.accin.subpool_id
                &&& t.accout.nonce.0@ == (b.accin.nonce.0@ + 1) % 0xffff_ffff_0000_0001
                &&& t.accout.spend_auth == b.accin.spend_auth
                &&& t.accout.consume_auth == b.accin.consume_auth
                &&& t.deposit_note == b.deposit_note
                &&& t.eth_address == b.eth_address
        }),
{
    b.accin.ast.lemma_shape();
    let a = b.deposit_note.asset_id;
    let amt = choose|amt: U256|
        amt.value() == balance_of(b.accin.ast@, a) + b.deposit_note.amount.value()
            && #[trigger] set_balance(b.accin.ast@, a, amt, t.accout.ast@);
    lemma_set_balance(b.accin.ast@, a, amt, t.accout.ast@, a);
    lemma_set_balance(b.accin.ast@, a, amt, t.accout.ast@, other);
}

/// A deposit is taken up exactly where the account is active and the note is for its
/// address, in its subpool.
pub proof fn lemma_deposit_for_owner<H: Fn(Vec<F>, usize) -> Vec<F>>(
    h: H,
    acc: StandardAccount,
    n: DepositNote,
    eth: [u8; 20],
    p: PublicIdentifier,
    r: Result<DepositTxBuilder, DepositTxBuilderError>,
)
    requires
        call_ensures(StandardAccount::public_id::<H>, (&acc, &h), p),
        call_ensures(DepositTxBuilder::new::<H>, (&h, acc, n, eth), r),
    ensures
        r is Ok <==> acc.nonce.0@ != 0 && n.recipient.subpool_id == acc.subpool_id
            && n.recipient.public_id == p,
        r matches Ok(b) ==> b.accin == acc && b.deposit_note == n && b.eth_address == eth,
{
}

/// A withdrawal lowers every balance by what is withdrawn of the asset, as integers,
/// and is refused exactly where nothing is withdrawn or where the withdrawals of an
/// asset together exceed its balance. The identity and the keys stay, and the nonce
/// goes up by one.
pub proof fn lemma_withdraw_debits<H: Fn(Vec<F>, usize) -> Vec<F>>(
    h: H,
    b: WithdrawRealTxBuilder,
    r: Result<BuiltWithdrawRealTx, WithdrawTxBuilderError>,
    a: AssetId,
)
    requires
        b.accin.ast.shape(),
        call_ensures(WithdrawRealTxBuilder::build::<H>, (b, &h), r),
        r is Ok ==> forall|i: int|
            0 <= i < b.withdrawals@.len() ==> has_asset(
                b.accin.ast@,
                (#[trigger] b.withdrawals@[i]).0,
            ),
    ensures
        r is Ok <==> b.withdrawals@.len() > 0 && forall|i: int|
            0 <= i < b.withdrawals@.len() ==> total_of(
                b.withdrawals@,
                (#[trigger] b.withdrawals@[i]).0,
            ) <= balance_of(b.accin.ast@, b.withdrawals@[i].0),
        r matches Ok(t) ==> {
            &&& balance_of(t.accout.ast@, a) + total_of(b.withdrawals@, a) == balance_of(
                b.accin.ast@,
                a,
            )
                &&& t.accin == b.accin
                &&& t.accout.private_identifier == b.accin.private_identifier
                &&& t.accout.subpool_id == b.accin.subpool_id
                &&& t.accout.nonce.0@ == (b.accin.nonce.0@ + 1) % 0xffff_ffff_0000_0001
                &&& t.accout.spend_auth == b.accin.spend_auth
                &&& t.accout.consume_auth == b.accin.consume_auth
            &&& t.withdrawals == b.withdrawals
            &&& t.w_acc_addr == b.w_acc_addr
        },
{
    b.accin.ast.lemma_shape();
    if let Ok(t) = r {
        if has_asset(b.accin.ast@, a) {
            lemma_drained_balance(b.accin.ast@, b.withdrawals@, t.accout.ast@, a);
        } else {
            lemma_total_absent(b.withdrawals@, a);
            lemma_drained_distinct(b.accin.ast@, b.withdrawals@, t.accout.ast@);
            lemma_balance_of(b.accin.ast@, a);
            lemma_balance_of(t.accout.ast@, a);
        }
    }
}

/// Nothing is withdrawn of an asset that no withdrawal names.
proof fn lemma_total_absent(w: Seq<(AssetId, U256)>, a: AssetId)
    requires
        forall|i: int| 0 <= i < w.len() ==> (#[trigger] w[i]).0 != a,
    ensures
        total_of(w, a) == 0,
    decreases w.len(),
{
    if w.len() > 0 {
        assert forall|i: int| 0 <= i < w.drop_last().len() implies (#[trigger] w.drop_last()[i]).0
            != a by {
            assert(w[i].0 != a);
        }
        lemma_total_absent(w.drop_last(), a);
        assert(w[w.len() - 1].0 != a);
    }
}

/// Withdrawing keeps the assets apart.
proof fn lemma_drained_distinct(
    before: Seq<AccountStateTreeLeaf>,
    w: Seq<(AssetId, U256)>,
    after: Seq<AccountStateTreeLeaf>,
)
    requires
        distinct_assets(before),
        drained(before, w, after),
    ensures
        distinct_assets(after),
        forall|a: AssetId| has_asset(after, a) ==> has_asset(before, a),
{
    assert forall|i: int, j: int| 0 <= i < j < after.len() implies (#[trigger] after[i]).asset_id
        != (#[trigger] after[j]).asset_id by {
        assert(before[i].asset_id != before[j].asset_id);
    }
    assert forall|a: AssetId| has_asset(after, a) implies has_asset(before, a) by {
        let k = choose|k: int| 0 <= k < after.len() && (#[trigger] after[k]).asset_id == a;
        assert(before[k].asset_id == a);
    }
}

/// Opening an account sets the two keys, keeps the identity and the balances, and
/// takes the nonce from zero to one. It is built exactly where both keys are set and
/// the dummies are filled in.
pub proof fn lemma_opens_account<H: Fn(Vec<F>, usize) -> Vec<F>>(
    h: H,
    acc: StandardAccount,
    n: Result<FreshAccTxBuilder, FreshAccTxBuilderError>,
    b: FreshAccTxBuilder,
    r: Result<BuiltFreshAccTx, FreshAccTxBuilderError>,
)
    requires
        call_ensures(FreshAccTxBuilder::new::<H>, (&h, acc), n),
        call_ensures(FreshAccTxBuilder::build::<H>, (b, &h), r),
    ensures
        n is Ok <==> acc.nonce.0@ == 0,
        n matches Ok(x) ==> x.accin == acc && x.new_spend_auth is None && x.new_consume_auth is None
            && x.dinotes is None && x.donotes is None,
        r is Ok <==> b.new_spend_auth is Some && b.new_consume_auth is Some && b.dinotes is Some
            && b.donotes is Some,
        r matches Ok(t) ==> {
            &&& t.accin == b.accin
            &&& t.accout.private_identifier == b.accin.private_identifier
            &&& t.accout.subpool_id == b.accin.subpool_id
            &&& t.accout.nonce.0@ == 1
            &&& Some(t.accout.spend_auth) == b.new_spend_auth
            &&& Some(t.accout.consume_auth) == b.new_consume_auth
            &&& t.accout.ast@ == b.accin.ast@
            &&& t.accout.ast.top() == b.accin.ast.top()
        },
{
}

/// A spend signature is made exactly where notes go out and the secret is that of the
/// account's spend key, and it signs the hash of the transaction; nothing else of the
/// transaction changes.
pub proof fn lemma_spend_signs<H: Fn(Vec<F>, usize) -> Vec<F>>(
    h: H,
    t: BuiltSpendTx,
    sk: &PrivateKey,
    k: Scalar,
    r: Result<BuiltSpendTx, TxSignError>,
)
    requires
        call_ensures(BuiltSpendTx::spend_sign::<H>, (t, &h, sk, k), r),
    ensures
        r is Ok <==> t.onotes@.len() > 0 && (t.accin.spend_auth.spend_pk matches Some(p) && p.0.w
            == compressed(sk.public_point())),
        r matches Ok(u) ==> {
            &&& u == (BuiltSpendTx { spend_sig: u.spend_sig, ..t })
            &&& u.spend_sig matches Some(s) && is_signature(h, *sk, t.tx_hash.elements(), k, s)
        },
{
}

/// A consume signature is made exactly where notes come in and none goes out, the
/// account consumes under a key of its own and the secret is that of this key; it
/// signs the hash of the transaction, and nothing else of the transaction changes.
pub proof fn lemma_consume_signs<H: Fn(Vec<F>, usize) -> Vec<F>>(
    h: H,
    t: BuiltSpendTx,
    sk: &PrivateKey,
    k: Scalar,
    r: Result<BuiltSpendTx, TxSignError>,
)
    requires
        call_ensures(BuiltSpendTx::consume_sign::<H>, (t, &h, sk, k), r),
    ensures
        r is Ok <==> t.inotes@.len() + t.rejected_inotes@.len() > 0 && t.onotes@.len() == 0
            && t.accin.consume_auth.config && (t.accin.consume_auth.pk matches Some(p) && p.0.w
            == compressed(sk.public_point())),
        r matches Ok(u) ==> {
            &&& u == (BuiltSpendTx { consume_sig: u.consume_sig, ..t })
            &&& u.consume_sig matches Some(s) && is_signature(h, *sk, t.tx_hash.elements(), k, s)
        },
{
}

/// A rejected note goes back: the recipient becomes the sender, and all else stays.
pub proof fn lemma_note_goes_back(n: &StandardNote, r: StandardNote)
    requires
        call_ensures(return_note, (n,), r),
    ensures
        r.recipient == n.sender,
        r.sender == n.sender,
        r.identifier == n.identifier,
        r.asset_id == n.asset_id,
        r.amt == n.amt,
{
}

/// A withdrawal that is refused withdraws nothing, or the error names a withdrawal that
/// exceeds the balance that it names: that of the asset where a withdrawal exceeds it
/// alone, else what the withdrawals before it leave of it.
pub proof fn lemma_withdraw_refusal<H: Fn(Vec<F>, usize) -> Vec<F>>(
    h: H,
    b: WithdrawRealTxBuilder,
    e: WithdrawTxBuilderError,
) -> (i: int)
    requires
        call_ensures(
            WithdrawRealTxBuilder::build::<H>,
            (b, &h),
            Err::<BuiltWithdrawRealTx, WithdrawTxBuilderError>(e),
        ),
    ensures
        b.withdrawals@.len() == 0 ==> e is NoWithdrawals,
        b.withdrawals@.len() > 0 ==> {
            &&& 0 <= i < b.withdrawals@.len()
            &&& e matches WithdrawTxBuilderError::InsufficientBalance {
                asset_id,
                balance,
                withdrawal,
            } && {
                &&& asset_id == b.withdrawals@[i].0
                &&& withdrawal == b.withdrawals@[i].1
                &&& withdrawal.value() > balance.value()
                &&& if forall|k: int|
                    0 <= k < b.withdrawals@.len() ==> (#[trigger] b.withdrawals@[k]).1.value()
                        <= balance_of(b.accin.ast@, b.withdrawals@[k].0) {
                    balance.value() + total_of(b.withdrawals@.take(i), asset_id) == balance_of(
                        b.accin.ast@,
                        asset_id,
                    )
                } else {
                    balance.value() == balance_of(b.accin.ast@, asset_id)
                }
            }
        },
{
    let w = b.withdrawals@;
    if w.len() == 0 {
        0
    } else if !all_within_balance(&b.accin, w) {
        let k = choose|k: int| 0 <= k < w.len() && !within_balance(&b.accin, #[trigger] w[k]);
        assert(w[k].1.value() > balance_of(b.accin.ast@, w[k].0));
        choose|i: int|
            0 <= i < w.len() && all_within_balance(&b.accin, w.take(i)) && !within_balance(
                &b.accin,
                #[trigger] w[i],
            ) && (e matches WithdrawTxBuilderError::InsufficientBalance {
                asset_id,
                balance,
                withdrawal,
            } && asset_id == w[i].0 && balance.value() == balance_of(b.accin.ast@, w[i].0)
                && withdrawal == w[i].1)
    } else {
        assert forall|k: int| 0 <= k < w.len() implies (#[trigger] w[k]).1.value() <= balance_of(
            b.accin.ast@,
            w[k].0,
        ) by {
            assert(within_balance(&b.accin, w[k]));
        }
        let i = choose|i: int|
            0 <= i < w.len() && #[trigger] overdraws(&b.accin, w, i) && (forall|j: int|
                0 <= j < i ==> !#[trigger] overdraws(&b.accin, w, j)) && (
            e matches WithdrawTxBuilderError::InsufficientBalance {
                asset_id,
                balance,
                withdrawal,
            } && asset_id == w[i].0 && balance.value() == balance_of(b.accin.ast@, w[i].0)
                - total_of(w.take(i), w[i].0) && withdrawal == w[i].1);
        assert(w.take(i + 1).drop_last() =~= w.take(i));
        assert(w.take(i + 1).last() == w[i]);
        i
    }
}

/// A note is taken up, behind those already there, exactly where a slot is free and, if
/// it comes in, it is of the asset and for the account, in its subpool. A note that goes
/// out is of the asset and from the account. Nothing else of the builder changes.
pub proof fn lemma_takes_notes<H: Fn(Vec<F>, usize) -> Vec<F>>(
    h: H,
    b: SpendTxBuilder,
    n: StandardNote,
    position: usize,
    p: PublicIdentifier,
    i: Result<SpendTxBuilder, SpendTxBuilderError>,
    j: Result<SpendTxBuilder, SpendTxBuilderError>,
    o: Result<SpendTxBuilder, SpendTxBuilderError>,
)
    requires
        call_ensures(StandardAccount::public_id::<H>, (&b.accin, &h), p),
        call_ensures(SpendTxBuilder::add_input_note::<H>, (b, &h, n, position), i),
        call_ensures(SpendTxBuilder::add_rejected_note::<H>, (b, &h, n, position), j),
        call_ensures(
            SpendTxBuilder::add_output_note::<H>,
            (b, &h, n.recipient, n.amt, n.identifier),
            o,
        ),
    ensures
        ({
            let mine = n.recipient.subpool_id == b.accin.subpool_id && n.recipient.public_id == p;
            let comes = b.rejected_notes@.len() + b.input_notes@.len();
            let goes = b.rejected_notes@.len() + b.output_notes@.len();
            &&& i is Ok <==> comes < 7 && n.asset_id == b.asset_id && mine
            &&& j is Ok <==> comes < 7 && goes < 7 && n.asset_id == b.asset_id && mine
            &&& o is Ok <==> goes < 7
        }),
        i matches Ok(c) ==> {
            &&& c.input_notes@ == b.input_notes@.push(PlacedNote { note: n, position })
            &&& c.rejected_notes@ == b.rejected_notes@
            &&& c.output_notes@ == b.output_notes@
            &&& c.accin == b.accin && c.asset_id == b.asset_id
            &&& c.dinotes == b.dinotes && c.donotes == b.donotes
        },
        j matches Ok(c) ==> {
            &&& c.rejected_notes@ == b.rejected_notes@.push(PlacedNote { note: n, position })
            &&& c.input_notes@ == b.input_notes@
            &&& c.output_notes@ == b.output_notes@
            &&& c.accin == b.accin && c.asset_id == b.asset_id
            &&& c.dinotes == b.dinotes && c.donotes == b.donotes
        },
        o matches Ok(c) ==> {
            &&& c.output_notes@.len() == b.output_notes@.len() + 1
            &&& c.output_notes@.drop_last() == b.output_notes@
            &&& ({
                let m = c.output_notes@.last();
                &&& m.identifier == n.identifier
                &&& m.asset_id == b.asset_id
                &&& m.amt == n.amt
                &&& m.recipient == n.recipient
                &&& m.sender.subpool_id == b.accin.subpool_id
                &&& m.sender.public_id == p
            })
            &&& c.input_notes@ == b.input_notes@
            &&& c.rejected_notes@ == b.rejected_notes@
            &&& c.accin == b.accin && c.asset_id == b.asset_id
            &&& c.dinotes == b.dinotes && c.donotes == b.donotes
        },
{
    if let Ok(c) = o {
        assert(c.output_notes@.drop_last() =~= b.output_notes@);
    }
}

} // verus!
