//! What the messages say: their words, and the numbers and keys that they show.
use vstd::prelude::*;
use vstd::string::*;

use crate::errors::{
    DepositTxBuilderError, DepositTxSignError, FreshAccTxBuilderError, KeyKind, NoteKind,
    PrivTxProveError, SpendTxBuilderError, TxSignError, WithdrawTxBuilderError,
};
use crate::schnorr::CompPubKey;
use crate::text::{decimal_text, key_text};

verus! {

/// The number that decimal digits spell, the most significant one first.
pub open spec fn spelled_number(t: Seq<char>) -> int
    decreases t.len(),
{
    if t.len() == 0 {
        0
    } else {
        10 * spelled_number(t.drop_last()) + (t.last() as int - '0' as int)
    }
}

/// A number is shown in decimal digits that spell it, and with no zero in front.
pub proof fn lemma_shown_number(n: nat)
    ensures
        decimal_text(n).len() > 0,
        forall|i: int| 0 <= i < decimal_text(n).len() ==> '0' <= #[trigger] decimal_text(n)[i]
            <= '9',
        n > 0 ==> decimal_text(n)[0] != '0',
        spelled_number(decimal_text(n)) == n,
    decreases n,
{
    let t = decimal_text(n);
    if n < 10 {
        assert(t.drop_last() =~= Seq::<char>::empty());
        assert(spelled_number(t.drop_last()) == 0);
    } else {
        lemma_shown_number(n / 10);
        let s = decimal_text(n / 10);
        assert(t.drop_last() =~= s);
        assert(t[0] == s[0]);
        assert forall|i: int| 0 <= i < t.len() implies '0' <= #[trigger] t[i] <= '9' by {
            if i < s.len() {
                assert(t[i] == s[i]);
            }
        }
    }
}

/// A key is shown by its five coefficients, in order.
pub proof fn lemma_shown_key(k: CompPubKey)
    ensures
        key_text(k) == "CompressedPublicKey(CompressedPoint { w: QuinticExtension(["@
            + decimal_text(k.0.w.c0@ as nat) + ", "@ + decimal_text(k.0.w.c1@ as nat) + ", "@
            + decimal_text(k.0.w.c2@ as nat) + ", "@ + decimal_text(k.0.w.c3@ as nat) + ", "@
            + decimal_text(k.0.w.c4@ as nat) + "]) })"@,
{
    assert(key_text(k) =~= "CompressedPublicKey(CompressedPoint { w: QuinticExtension(["@
        + decimal_text(k.0.w.c0@ as nat) + ", "@ + decimal_text(k.0.w.c1@ as nat) + ", "@
        + decimal_text(k.0.w.c2@ as nat) + ", "@ + decimal_text(k.0.w.c3@ as nat) + ", "@
        + decimal_text(k.0.w.c4@ as nat) + "]) })"@);
}

/// The word for the notes that a message speaks of.
pub open spec fn notes_word(k: NoteKind) -> Seq<char> {
    if k is Input {
        "input"@
    } else if k is Output {
        "output"@
    } else {
        "rejected"@
    }
}

/// The word for the key that a message speaks of.
pub open spec fn key_word(k: KeyKind) -> Seq<char> {
    if k is Spend {
        "spend"@
    } else {
        "consume"@
    }
}

/// The messages about a spend.
pub proof fn lemma_spend_message(e: &SpendTxBuilderError, r: String)
    requires
        call_ensures(SpendTxBuilderError::message, (e,), r),
    ensures
        e is AccountNotInitialized ==> r@
            == "Account not initialized (nonce is 0). Must perform FreshAcc first"@,
        e matches SpendTxBuilderError::NoteBatchLimitReached { kind, limit } ==> r@
            == "Note batch limit reached: "@ + notes_word(*kind) + " notes already at limit ("@
            + decimal_text(*limit as nat) + ")"@,
        e matches SpendTxBuilderError::AssetMismatch { expected, got } ==> r@
            == "Asset mismatch: expected AssetId("@ + decimal_text(expected.0@ as nat)
            + "), got AssetId("@ + decimal_text(got.0@ as nat) + ")"@,
        e matches SpendTxBuilderError::NoteNotInTree { position } ==> r@
            == "Note not found in state tree at position "@ + decimal_text(*position as nat),
        e matches SpendTxBuilderError::NoteCommitmentMismatch { position } ==> r@
            == "Note commitment mismatch at position "@ + decimal_text(*position as nat),
        e is RecipientMismatch ==> r@ == "Note recipient doesn't match input account"@,
        e is NoActiveNotes ==> r@ == "Must have at least one input or output note"@,
        e matches SpendTxBuilderError::InsufficientBalance { old_balance, delta_in, delta_out }
            ==> r@ == "Insufficient balance: old_balance="@ + decimal_text(old_balance.value())
            + ", delta_in="@ + decimal_text(delta_in.value()) + ", delta_out="@ + decimal_text(
            delta_out.value(),
        ),
        e matches SpendTxBuilderError::SubpoolNotFound { subpool_id } ==> r@
            == "Subpool SubpoolId("@ + decimal_text(subpool_id.0@ as nat)
            + ") not found in main pool config"@,
        e matches SpendTxBuilderError::DummyNotesNotFilled { kind } ==> r@ == "Dummy "@
            + notes_word(*kind)
            + " notes not filled. Call fill_dinotes()/fill_donotes() before build()"@,
        e is AccountPathNotSet ==> r@
            == "Account commitment merkle path not set. Call with_account_path() before into_priv_tx()"@,
        e is NotePathsNotSet ==> r@
            == "Note commitment merkle paths not set. Call with_input_notes_path()/with_rejected_notes_path() before into_priv_tx()"@,
        e is SubpoolProofNotSet ==> r@
            == "Subpool proof not set. Call with_subpool_proof() before into_priv_tx()"@,
        e is TreeError ==> r@ == "Tree error: Capacity reached"@,
{
    reveal_strlit("AssetId(");
    reveal_strlit("Asset mismatch: expected ");
    reveal_strlit("Asset mismatch: expected AssetId(");
    reveal_strlit(")");
    reveal_strlit(", got ");
    reveal_strlit("), got AssetId(");
    reveal_strlit("Subpool ");
    reveal_strlit("SubpoolId(");
    reveal_strlit("Subpool SubpoolId(");
    reveal_strlit(" not found in main pool config");
    reveal_strlit(") not found in main pool config");
    reveal_strlit("Tree error: ");
    reveal_strlit("Capacity reached");
    reveal_strlit("Tree error: Capacity reached");
    if let SpendTxBuilderError::AssetMismatch { expected, got } = e {
        assert(r@ =~= "Asset mismatch: expected AssetId("@ + decimal_text(expected.0@ as nat)
            + "), got AssetId("@ + decimal_text(got.0@ as nat) + ")"@);
    }
    if let SpendTxBuilderError::SubpoolNotFound { subpool_id } = e {
        assert(r@ =~= "Subpool SubpoolId("@ + decimal_text(subpool_id.0@ as nat)
            + ") not found in main pool config"@);
    }
    if e is TreeError {
        assert(r@ =~= "Tree error: Capacity reached"@);
    }
}

/// The messages about an opening.
pub proof fn lemma_opening_message(e: &FreshAccTxBuilderError, r: String)
    requires
        call_ensures(FreshAccTxBuilderError::message, (e,), r),
    ensures
        e is AccountAlreadyInitialized ==> r@
            == "Account already initialized (nonce != 0). FreshAcc requires nonce=0"@,
        e is SpendKeyNotSet ==> r@
            == "Spend key not set. Call with_new_spend_key() before building"@,
        e is ConsumeKeyNotSet ==> r@
            == "Consume key not set. Call with_new_consume_key() or with_delegated_consume() before building"@,
        e matches FreshAccTxBuilderError::DummyNotesNotFilled { kind } ==> r@ == "Dummy "@
            + notes_word(*kind)
            + " notes not filled. Call fill_dinotes()/fill_donotes() before build()"@,
        e matches FreshAccTxBuilderError::SubpoolNotFound { subpool_id } ==> r@
            == "Subpool SubpoolId("@ + decimal_text(subpool_id.0@ as nat)
            + ") not found in main pool config"@,
        e is StateRootNotSet ==> r@
            == "State root not set. Call with_state_root() before into_priv_tx()"@,
        e is SubpoolProofNotSet ==> r@
            == "Subpool proof not set. Call with_subpool_proof() before into_priv_tx()"@,
        e is ApprovalSigNotSet ==> r@
            == "Approval signature not set. Call approval_sign() before into_priv_tx()"@,
        e is TreeError ==> r@
            == "Tree error: Capacity reached"@,
{
    reveal_strlit("Subpool ");
    reveal_strlit("SubpoolId(");
    reveal_strlit(")");
    reveal_strlit("Subpool SubpoolId(");
    reveal_strlit(" not found in main pool config");
    reveal_strlit(") not found in main pool config");
    if let FreshAccTxBuilderError::SubpoolNotFound { subpool_id } = e {
        assert(r@ =~= "Subpool SubpoolId("@ + decimal_text(subpool_id.0@ as nat)
            + ") not found in main pool config"@);
    }
    reveal_strlit("Tree error: ");
    reveal_strlit("Capacity reached");
    reveal_strlit("Tree error: Capacity reached");
    if e is TreeError {
        assert(r@ =~= "Tree error: Capacity reached"@);
    }
}

/// The messages about a signature.
pub proof fn lemma_signing_message(e: &TxSignError, r: String)
    requires
        call_ensures(TxSignError::message, (e,), r),
    ensures
        e matches TxSignError::ConsumeNotRequired { has_input_notes, has_output_notes } ==> r@
            == "Consume signature not required: has_input_notes="@ + (if *has_input_notes {
            "true"@
        } else {
            "false"@
        }) + ", has_output_notes="@ + (if *has_output_notes {
            "true"@
        } else {
            "false"@
        }),
        e is ConsumeDelegated ==> r@
            == "Consume auth is delegated to subpool owner (config=false)"@,
        e is ConsumeKeyNotSet ==> r@
            == "Consume key not set in account (consume_auth.pk is None)"@,
        e is SpendNotRequired ==> r@
            == "Spend signature not required: no output notes"@,
        e is SpendKeyNotSet ==> r@
            == "Spend key not set in account (spend_auth.spend_pk is None)"@,
        e matches TxSignError::KeyMismatch { key_type, expected, provided } ==> r@
            == key_word(*key_type) + " key mismatch: expected "@ + key_text(*expected)
            + ", provided "@ + key_text(*provided),
{
}

/// The messages about slots that do not fit.
pub proof fn lemma_proving_message(e: &PrivTxProveError, r: String)
    requires
        call_ensures(PrivTxProveError::message, (e,), r),
    ensures
        e matches PrivTxProveError::NoteBatchOverflow { rejected, inotes, onotes, limit } ==> r@
            == "Proof generation failed: "@ + ("note batch overflow: rejected="@ + decimal_text(
            *rejected as nat,
        ) + ", inotes="@ + decimal_text(*inotes as nat) + ", onotes="@ + decimal_text(
            *onotes as nat,
        ) + ", limit="@ + decimal_text(*limit as nat)),
        e matches PrivTxProveError::DinotesLength { expected, got } ==> r@
            == "Proof generation failed: "@ + ("dinotes length mismatch: expected "@
            + decimal_text(*expected as nat) + ", got "@ + decimal_text(*got as nat)),
        e matches PrivTxProveError::DonotesLength { expected, got } ==> r@
            == "Proof generation failed: "@ + ("donotes length mismatch: expected "@
            + decimal_text(*expected as nat) + ", got "@ + decimal_text(*got as nat)),
{
}

/// The messages about a deposit.
pub proof fn lemma_deposit_message(e: &DepositTxBuilderError, r: String)
    requires
        call_ensures(DepositTxBuilderError::message, (e,), r),
    ensures
        e is AccountNotInitialized ==> r@
            == "Account not initialized (nonce=0). Must perform FreshAcc first"@,
        e is RecipientMismatch ==> r@
            == "Deposit note recipient does not match accin address"@,
        e is AccinNotInStateTree ==> r@
            == "Account commitment not found in state tree"@,
        e is ApprovalSignRequired ==> r@
            == "Must call approval_sign() before into_deposit_tx()"@,
        e is ConsumeSignRequired ==> r@
            == "Must call consume_sign() before into_deposit_tx() when consume_auth.config is set"@,
        e is TreeError ==> r@
            == "Tree error: Capacity reached"@,
{
    reveal_strlit("Tree error: ");
    reveal_strlit("Capacity reached");
    reveal_strlit("Tree error: Capacity reached");
    if e is TreeError {
        assert(r@ =~= "Tree error: Capacity reached"@);
    }
}

/// The messages about the consume signature of a deposit.
pub proof fn lemma_deposit_signing_message(e: &DepositTxSignError, r: String)
    requires
        call_ensures(DepositTxSignError::message, (e,), r),
    ensures
        e is ConsumeDelegated ==> r@
            == "Consume auth is delegated to subpool owner (config=false)"@,
        e is ConsumeKeyNotSet ==> r@
            == "Consume key not set (consume_auth.pk is None)"@,
        e matches DepositTxSignError::KeyMismatch { key_type, expected, provided } ==> r@
            == key_word(*key_type) + " key mismatch: expected "@ + key_text(*expected)
            + ", provided "@ + key_text(*provided),
{
}

/// The messages about a withdrawal.
pub proof fn lemma_withdraw_message(e: &WithdrawTxBuilderError, r: String)
    requires
        call_ensures(WithdrawTxBuilderError::message, (e,), r),
    ensures
        e is AccountNotInitialized ==> r@
            == "Account not initialized (nonce=0). Must perform FreshAcc first"@,
        e matches WithdrawTxBuilderError::TooManyWithdrawals { limit } ==> r@
            == "Too many withdrawals: limit is "@ + decimal_text(*limit as nat),
        e is NoWithdrawals ==> r@
            == "Must add at least one withdrawal before build()"@,
        e matches WithdrawTxBuilderError::InsufficientBalance { asset_id, balance, withdrawal } ==> r@
            == "Insufficient balance for asset AssetId("@ + decimal_text(asset_id.0@ as nat)
            + "): balance="@ + decimal_text(balance.value()) + ", withdrawal="@ + decimal_text(
            withdrawal.value(),
        ),
        e is AccinNotInStateTree ==> r@
            == "Account commitment not found in state tree"@,
        e is ApprovalSignRequired ==> r@
            == "Must call approval_sign() before into_withdraw_tx()"@,
        e is SubpoolNotFound ==> r@
            == "Subpool not found in main pool config"@,
        e is TreeError ==> r@
            == "Tree error: Capacity reached"@,
{
    reveal_strlit("Insufficient balance for asset ");
    reveal_strlit("AssetId(");
    reveal_strlit("Insufficient balance for asset AssetId(");
    reveal_strlit(")");
    reveal_strlit(": balance=");
    reveal_strlit("): balance=");
    if let WithdrawTxBuilderError::InsufficientBalance { asset_id, balance, withdrawal } = e {
        assert(r@ =~= "Insufficient balance for asset AssetId("@ + decimal_text(
            asset_id.0@ as nat,
        ) + "): balance="@ + decimal_text(balance.value()) + ", withdrawal="@ + decimal_text(
            withdrawal.value(),
        ));
    }
    reveal_strlit("Tree error: ");
    reveal_strlit("Capacity reached");
    reveal_strlit("Tree error: Capacity reached");
    if e is TreeError {
        assert(r@ =~= "Tree error: Capacity reached"@);
    }
}

} // verus!
