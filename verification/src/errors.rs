//! Why a transaction cannot be built, signed or proven, and the messages.
use vstd::prelude::*;
use vstd::string::*;

use crate::account::SubpoolId;
use crate::ast::AssetId;
use crate::schnorr::CompPubKey;
use crate::text::{
    append_asset, append_bool, append_decimal, append_key, append_subpool, append_u256, asset_text,
    bool_text, decimal_text, key_text, subpool_text,
};
use crate::tree::MerkleTreeError;
use crate::u256::U256;

verus! {

/// Which notes an error speaks of.
#[derive(Clone, Copy, Debug, PartialEq, Eq, Structural)]
pub enum NoteKind {
    Input,
    Output,
    Rejected,
}

impl NoteKind {
    /// The kind as text.
    pub open spec fn text(self) -> Seq<char> {
        match self {
            NoteKind::Input => "input"@,
            NoteKind::Output => "output"@,
            NoteKind::Rejected => "rejected"@,
        }
    }

    /// The kind as text.
    pub fn name(&self) -> (r: &'static str)
        ensures
            r@ == self.text(),
    {
        match self {
            NoteKind::Input => "input",
            NoteKind::Output => "output",
            NoteKind::Rejected => "rejected",
        }
    }
}

/// Which key an error speaks of.
#[derive(Clone, Copy, Debug, PartialEq, Eq, Structural)]
pub enum KeyKind {
    Spend,
    Consume,
}

impl KeyKind {
    /// The kind as text.
    pub open spec fn text(self) -> Seq<char> {
        match self {
            KeyKind::Spend => "spend"@,
            KeyKind::Consume => "consume"@,
        }
    }

    /// The kind as text.
    pub fn name(&self) -> (r: &'static str)
        ensures
            r@ == self.text(),
    {
        match self {
            KeyKind::Spend => "spend",
            KeyKind::Consume => "consume",
        }
    }
}

/// Errors that can occur while building a spend transaction.
#[derive(Clone, Copy, Debug, PartialEq, Eq, Structural)]
pub enum SpendTxBuilderError {
    AccountNotInitialized,
    NoteBatchLimitReached { kind: NoteKind, limit: usize },
    AssetMismatch { expected: AssetId, got: AssetId },
    NoteNotInTree { position: usize },
    NoteCommitmentMismatch { position: usize },
    RecipientMismatch,
    NoActiveNotes,
    InsufficientBalance { old_balance: U256, delta_in: U256, delta_out: U256 },
    SubpoolNotFound { subpool_id: SubpoolId },
    DummyNotesNotFilled { kind: NoteKind },
    AccountPathNotSet,
    NotePathsNotSet,
    SubpoolProofNotSet,
    TreeError(MerkleTreeError),
}

/// The message of a tree error.
pub open spec fn tree_error_text(e: MerkleTreeError) -> Seq<char> {
    match e {
        MerkleTreeError::CapacityReached => "Capacity reached"@,
    }
}

fn append_tree_error(out: &mut String, e: &MerkleTreeError)
    ensures
        final(out)@ == old(out)@ + "Tree error: "@ + tree_error_text(*e),
{
    out.append("Tree error: ");
    match e {
        MerkleTreeError::CapacityReached => {
            out.append("Capacity reached");
        },
    }
}

/// The message about dummy notes.
pub open spec fn dummy_notes_text(kind: NoteKind) -> Seq<char> {
    "Dummy "@ + kind.text()
        + " notes not filled. Call fill_dinotes()/fill_donotes() before build()"@
}

fn append_dummy_notes(out: &mut String, kind: &NoteKind)
    ensures
        final(out)@ == old(out)@ + dummy_notes_text(*kind),
{
    out.append("Dummy ");
    out.append(kind.name());
    out.append(" notes not filled. Call fill_dinotes()/fill_donotes() before build()");
    assert(out@ =~= old(out)@ + dummy_notes_text(*kind));
}

/// The message about a subpool.
pub open spec fn subpool_missing_text(id: SubpoolId) -> Seq<char> {
    "Subpool "@ + subpool_text(id) + " not found in main pool config"@
}

fn append_subpool_missing(out: &mut String, id: &SubpoolId)
    ensures
        final(out)@ == old(out)@ + subpool_missing_text(*id),
{
    out.append("Subpool ");
    append_subpool(out, *id);
    out.append(" not found in main pool config");
    assert(out@ =~= old(out)@ + subpool_missing_text(*id));
}

impl SpendTxBuilderError {
    /// The message, in contracts.
    pub open spec fn text(self) -> Seq<char> {
        match self {
            SpendTxBuilderError::AccountNotInitialized =>
                "Account not initialized (nonce is 0). Must perform FreshAcc first"@,
            SpendTxBuilderError::NoteBatchLimitReached { kind, limit } =>
                "Note batch limit reached: "@ + kind.text() + " notes already at limit ("@
                    + decimal_text(limit as nat) + ")"@,
            SpendTxBuilderError::AssetMismatch { expected, got } => "Asset mismatch: expected "@
                + asset_text(expected) + ", got "@ + asset_text(got),
            SpendTxBuilderError::NoteNotInTree { position } =>
                "Note not found in state tree at position "@ + decimal_text(position as nat),
            SpendTxBuilderError::NoteCommitmentMismatch { position } =>
                "Note commitment mismatch at position "@ + decimal_text(position as nat),
            SpendTxBuilderError::RecipientMismatch => "Note recipient doesn't match input account"@,
            SpendTxBuilderError::NoActiveNotes => "Must have at least one input or output note"@,
            SpendTxBuilderError::InsufficientBalance { old_balance, delta_in, delta_out } =>
                "Insufficient balance: old_balance="@ + decimal_text(old_balance.value())
                    + ", delta_in="@ + decimal_text(delta_in.value()) + ", delta_out="@
                    + decimal_text(delta_out.value()),
            SpendTxBuilderError::SubpoolNotFound { subpool_id } => subpool_missing_text(subpool_id),
            SpendTxBuilderError::DummyNotesNotFilled { kind } => dummy_notes_text(kind),
            SpendTxBuilderError::AccountPathNotSet =>
                "Account commitment merkle path not set. Call with_account_path() before into_priv_tx()"@,
            SpendTxBuilderError::NotePathsNotSet =>
                "Note commitment merkle paths not set. Call with_input_notes_path()/with_rejected_notes_path() before into_priv_tx()"@,
            SpendTxBuilderError::SubpoolProofNotSet =>
                "Subpool proof not set. Call with_subpool_proof() before into_priv_tx()"@,
            SpendTxBuilderError::TreeError(e) => "Tree error: "@ + tree_error_text(e),
        }
    }

    /// The message.
    pub fn message(&self) -> (r: String)
        ensures
            r@ == self.text(),
    {
        let mut out = String::new();
        match self {
            SpendTxBuilderError::AccountNotInitialized => {
                out.append("Account not initialized (nonce is 0). Must perform FreshAcc first");
            },
            SpendTxBuilderError::NoteBatchLimitReached { kind, limit } => {
                out.append("Note batch limit reached: ");
                out.append(kind.name());
                out.append(" notes already at limit (");
                append_decimal(&mut out, *limit as u64);
                out.append(")");
            },
            SpendTxBuilderError::AssetMismatch { expected, got } => {
                out.append("Asset mismatch: expected ");
                append_asset(&mut out, *expected);
                out.append(", got ");
                append_asset(&mut out, *got);
            },
            SpendTxBuilderError::NoteNotInTree { position } => {
                out.append("Note not found in state tree at position ");
                append_decimal(&mut out, *position as u64);
            },
            SpendTxBuilderError::NoteCommitmentMismatch { position } => {
                out.append("Note commitment mismatch at position ");
                append_decimal(&mut out, *position as u64);
            },
            SpendTxBuilderError::RecipientMismatch => {
                out.append("Note recipient doesn't match input account");
            },
            SpendTxBuilderError::NoActiveNotes => {
                out.append("Must have at least one input or output note");
            },
            SpendTxBuilderError::InsufficientBalance { old_balance, delta_in, delta_out } => {
                out.append("Insufficient balance: old_balance=");
                append_u256(&mut out, old_balance);
                out.append(", delta_in=");
                append_u256(&mut out, delta_in);
                out.append(", delta_out=");
                append_u256(&mut out, delta_out);
            },
            SpendTxBuilderError::SubpoolNotFound { subpool_id } => {
                append_subpool_missing(&mut out, subpool_id);
            },
            SpendTxBuilderError::DummyNotesNotFilled { kind } => {
                append_dummy_notes(&mut out, kind);
            },
            SpendTxBuilderError::AccountPathNotSet => {
                out.append(
                    "Account commitment merkle path not set. Call with_account_path() before into_priv_tx()",
                );
            },
            SpendTxBuilderError::NotePathsNotSet => {
                out.append(
                    "Note commitment merkle paths not set. Call with_input_notes_path()/with_rejected_notes_path() before into_priv_tx()",
                );
            },
            SpendTxBuilderError::SubpoolProofNotSet => {
                out.append("Subpool proof not set. Call with_subpool_proof() before into_priv_tx()");
            },
            SpendTxBuilderError::TreeError(e) => {
                append_tree_error(&mut out, e);
            },
        }
        assert(out@ =~= self.text());
        out
    }
}

impl From<MerkleTreeError> for SpendTxBuilderError {
    fn from(e: MerkleTreeError) -> (r: Self) {
        SpendTxBuilderError::TreeError(e)
    }
}

impl vstd::std_specs::convert::FromSpecImpl<MerkleTreeError> for SpendTxBuilderError {
    open spec fn obeys_from_spec() -> bool {
        true
    }

    open spec fn from_spec(e: MerkleTreeError) -> Self {
        SpendTxBuilderError::TreeError(e)
    }
}

/// Errors that can occur while building a FreshAcc transaction.
#[derive(Clone, Copy, Debug, PartialEq, Eq, Structural)]
pub enum FreshAccTxBuilderError {
    AccountAlreadyInitialized,
    SpendKeyNotSet,
    ConsumeKeyNotSet,
    DummyNotesNotFilled { kind: NoteKind },
    SubpoolNotFound { subpool_id: SubpoolId },
    StateRootNotSet,
    SubpoolProofNotSet,
    ApprovalSigNotSet,
    TreeError(MerkleTreeError),
}

impl FreshAccTxBuilderError {
    /// The message, in contracts.
    pub open spec fn text(self) -> Seq<char> {
        match self {
            FreshAccTxBuilderError::AccountAlreadyInitialized =>
                "Account already initialized (nonce != 0). FreshAcc requires nonce=0"@,
            FreshAccTxBuilderError::SpendKeyNotSet =>
                "Spend key not set. Call with_new_spend_key() before building"@,
            FreshAccTxBuilderError::ConsumeKeyNotSet =>
                "Consume key not set. Call with_new_consume_key() or with_delegated_consume() before building"@,
            FreshAccTxBuilderError::DummyNotesNotFilled { kind } => dummy_notes_text(kind),
            FreshAccTxBuilderError::SubpoolNotFound { subpool_id } => subpool_missing_text(
                subpool_id,
            ),
            FreshAccTxBuilderError::StateRootNotSet =>
                "State root not set. Call with_state_root() before into_priv_tx()"@,
            FreshAccTxBuilderError::SubpoolProofNotSet =>
                "Subpool proof not set. Call with_subpool_proof() before into_priv_tx()"@,
            FreshAccTxBuilderError::ApprovalSigNotSet =>
                "Approval signature not set. Call approval_sign() before into_priv_tx()"@,
            FreshAccTxBuilderError::TreeError(e) => "Tree error: "@ + tree_error_text(e),
        }
    }

    /// The message.
    pub fn message(&self) -> (r: String)
        ensures
            r@ == self.text(),
    {
        let mut out = String::new();
        match self {
            FreshAccTxBuilderError::AccountAlreadyInitialized => {
                out.append("Account already initialized (nonce != 0). FreshAcc requires nonce=0");
            },
            FreshAccTxBuilderError::SpendKeyNotSet => {
                out.append("Spend key not set. Call with_new_spend_key() before building");
            },
            FreshAccTxBuilderError::ConsumeKeyNotSet => {
                out.append(
                    "Consume key not set. Call with_new_consume_key() or with_delegated_consume() before building",
                );
            },
            FreshAccTxBuilderError::DummyNotesNotFilled { kind } => {
                append_dummy_notes(&mut out, kind);
            },
            FreshAccTxBuilderError::SubpoolNotFound { subpool_id } => {
                append_subpool_missing(&mut out, subpool_id);
            },
            FreshAccTxBuilderError::StateRootNotSet => {
                out.append("State root not set. Call with_state_root() before into_priv_tx()");
            },
            FreshAccTxBuilderError::SubpoolProofNotSet => {
                out.append("Subpool proof not set. Call with_subpool_proof() before into_priv_tx()");
            },
            FreshAccTxBuilderError::ApprovalSigNotSet => {
                out.append("Approval signature not set. Call approval_sign() before into_priv_tx()");
            },
            FreshAccTxBuilderError::TreeError(e) => {
                append_tree_error(&mut out, e);
            },
        }
        assert(out@ =~= self.text());
        out
    }
}

impl From<MerkleTreeError> for FreshAccTxBuilderError {
    fn from(e: MerkleTreeError) -> (r: Self) {
        FreshAccTxBuilderError::TreeError(e)
    }
}

impl vstd::std_specs::convert::FromSpecImpl<MerkleTreeError> for FreshAccTxBuilderError {
    open spec fn obeys_from_spec() -> bool {
        true
    }

    open spec fn from_spec(e: MerkleTreeError) -> Self {
        FreshAccTxBuilderError::TreeError(e)
    }
}

/// Errors that can occur while signing a transaction.
#[derive(Clone, Copy, Debug, PartialEq, Eq, Structural)]
pub enum TxSignError {
    ConsumeNotRequired { has_input_notes: bool, has_output_notes: bool },
    ConsumeDelegated,
    ConsumeKeyNotSet,
    SpendNotRequired,
    SpendKeyNotSet,
    KeyMismatch { key_type: KeyKind, expected: CompPubKey, provided: CompPubKey },
}

/// The message about a key that is not the expected one.
pub open spec fn key_mismatch_text(kind: KeyKind, expected: CompPubKey, provided: CompPubKey) -> Seq<
    char,
> {
    kind.text() + " key mismatch: expected "@ + key_text(expected) + ", provided "@ + key_text(
        provided,
    )
}

fn append_key_mismatch(out: &mut String, kind: &KeyKind, expected: &CompPubKey, provided: &CompPubKey)
    ensures
        final(out)@ == old(out)@ + key_mismatch_text(*kind, *expected, *provided),
{
    out.append(kind.name());
    out.append(" key mismatch: expected ");
    append_key(out, expected);
    out.append(", provided ");
    append_key(out, provided);
    assert(out@ =~= old(out)@ + key_mismatch_text(*kind, *expected, *provided));
}

impl TxSignError {
    /// The message, in contracts.
    pub open spec fn text(self) -> Seq<char> {
        match self {
            TxSignError::ConsumeNotRequired { has_input_notes, has_output_notes } =>
                "Consume signature not required: has_input_notes="@ + bool_text(has_input_notes)
                    + ", has_output_notes="@ + bool_text(has_output_notes),
            TxSignError::ConsumeDelegated =>
                "Consume auth is delegated to subpool owner (config=false)"@,
            TxSignError::ConsumeKeyNotSet =>
                "Consume key not set in account (consume_auth.pk is None)"@,
            TxSignError::SpendNotRequired => "Spend signature not required: no output notes"@,
            TxSignError::SpendKeyNotSet =>
                "Spend key not set in account (spend_auth.spend_pk is None)"@,
            TxSignError::KeyMismatch { key_type, expected, provided } => key_mismatch_text(
                key_type,
                expected,
                provided,
            ),
        }
    }

    /// The message.
    pub fn message(&self) -> (r: String)
        ensures
            r@ == self.text(),
    {
        let mut out = String::new();
        match self {
            TxSignError::ConsumeNotRequired { has_input_notes, has_output_notes } => {
                out.append("Consume signature not required: has_input_notes=");
                append_bool(&mut out, *has_input_notes);
                out.append(", has_output_notes=");
                append_bool(&mut out, *has_output_notes);
            },
            TxSignError::ConsumeDelegated => {
                out.append("Consume auth is delegated to subpool owner (config=false)");
            },
            TxSignError::ConsumeKeyNotSet => {
                out.append("Consume key not set in account (consume_auth.pk is None)");
            },
            TxSignError::SpendNotRequired => {
                out.append("Spend signature not required: no output notes");
            },
            TxSignError::SpendKeyNotSet => {
                out.append("Spend key not set in account (spend_auth.spend_pk is None)");
            },
            TxSignError::KeyMismatch { key_type, expected, provided } => {
                append_key_mismatch(&mut out, key_type, expected, provided);
            },
        }
        assert(out@ =~= self.text());
        out
    }
}

/// Errors that can occur while preparing a transaction to be proven.
#[derive(Clone, Copy, Debug, PartialEq, Eq, Structural)]
pub enum PrivTxProveError {
    /// More notes than slots.
    NoteBatchOverflow { rejected: usize, inotes: usize, onotes: usize, limit: usize },
    /// Not as many dummy input notes as free slots.
    DinotesLength { expected: usize, got: usize },
    /// Not as many dummy output notes as free slots.
    DonotesLength { expected: usize, got: usize },
}

impl PrivTxProveError {
    /// The message, in contracts.
    pub open spec fn text(self) -> Seq<char> {
        "Proof generation failed: "@ + (match self {
            PrivTxProveError::NoteBatchOverflow { rejected, inotes, onotes, limit } =>
                "note batch overflow: rejected="@ + decimal_text(rejected as nat) + ", inotes="@
                    + decimal_text(inotes as nat) + ", onotes="@ + decimal_text(onotes as nat)
                    + ", limit="@ + decimal_text(limit as nat),
            PrivTxProveError::DinotesLength { expected, got } =>
                "dinotes length mismatch: expected "@ + decimal_text(expected as nat) + ", got "@
                    + decimal_text(got as nat),
            PrivTxProveError::DonotesLength { expected, got } =>
                "donotes length mismatch: expected "@ + decimal_text(expected as nat) + ", got "@
                    + decimal_text(got as nat),
        })
    }

    /// The message.
    pub fn message(&self) -> (r: String)
        ensures
            r@ == self.text(),
    {
        let mut out = String::new();
        out.append("Proof generation failed: ");
        match self {
            PrivTxProveError::NoteBatchOverflow { rejected, inotes, onotes, limit } => {
                out.append("note batch overflow: rejected=");
                append_decimal(&mut out, *rejected as u64);
                out.append(", inotes=");
                append_decimal(&mut out, *inotes as u64);
                out.append(", onotes=");
                append_decimal(&mut out, *onotes as u64);
                out.append(", limit=");
                append_decimal(&mut out, *limit as u64);
            },
            PrivTxProveError::DinotesLength { expected, got } => {
                out.append("dinotes length mismatch: expected ");
                append_decimal(&mut out, *expected as u64);
                out.append(", got ");
                append_decimal(&mut out, *got as u64);
            },
            PrivTxProveError::DonotesLength { expected, got } => {
                out.append("donotes length mismatch: expected ");
                append_decimal(&mut out, *expected as u64);
                out.append(", got ");
                append_decimal(&mut out, *got as u64);
            },
        }
        assert(out@ =~= self.text());
        out
    }
}

/// Errors that can occur while building a deposit.
#[derive(Clone, Copy, Debug, PartialEq, Eq, Structural)]
pub enum DepositTxBuilderError {
    AccountNotInitialized,
    RecipientMismatch,
    AccinNotInStateTree,
    ApprovalSignRequired,
    ConsumeSignRequired,
    TreeError(MerkleTreeError),
}

impl DepositTxBuilderError {
    /// The message, in contracts.
    pub open spec fn text(self) -> Seq<char> {
        match self {
            DepositTxBuilderError::AccountNotInitialized =>
                "Account not initialized (nonce=0). Must perform FreshAcc first"@,
            DepositTxBuilderError::RecipientMismatch =>
                "Deposit note recipient does not match accin address"@,
            DepositTxBuilderError::AccinNotInStateTree =>
                "Account commitment not found in state tree"@,
            DepositTxBuilderError::ApprovalSignRequired =>
                "Must call approval_sign() before into_deposit_tx()"@,
            DepositTxBuilderError::ConsumeSignRequired =>
                "Must call consume_sign() before into_deposit_tx() when consume_auth.config is set"@,
            DepositTxBuilderError::TreeError(e) => "Tree error: "@ + tree_error_text(e),
        }
    }

    /// The message.
    pub fn message(&self) -> (r: String)
        ensures
            r@ == self.text(),
    {
        let mut out = String::new();
        match self {
            DepositTxBuilderError::AccountNotInitialized => {
                out.append("Account not initialized (nonce=0). Must perform FreshAcc first");
            },
            DepositTxBuilderError::RecipientMismatch => {
                out.append("Deposit note recipient does not match accin address");
            },
            DepositTxBuilderError::AccinNotInStateTree => {
                out.append("Account commitment not found in state tree");
            },
            DepositTxBuilderError::ApprovalSignRequired => {
                out.append("Must call approval_sign() before into_deposit_tx()");
            },
            DepositTxBuilderError::ConsumeSignRequired => {
                out.append(
                    "Must call consume_sign() before into_deposit_tx() when consume_auth.config is set",
                );
            },
            DepositTxBuilderError::TreeError(e) => {
                append_tree_error(&mut out, e);
            },
        }
        assert(out@ =~= self.text());
        out
    }
}

/// Errors that can occur while signing a deposit.
#[derive(Clone, Copy, Debug, PartialEq, Eq, Structural)]
pub enum DepositTxSignError {
    ConsumeDelegated,
    ConsumeKeyNotSet,
    KeyMismatch { key_type: KeyKind, expected: CompPubKey, provided: CompPubKey },
}

impl DepositTxSignError {
    /// The message, in contracts.
    pub open spec fn text(self) -> Seq<char> {
        match self {
            DepositTxSignError::ConsumeDelegated =>
                "Consume auth is delegated to subpool owner (config=false)"@,
            DepositTxSignError::ConsumeKeyNotSet =>
                "Consume key not set (consume_auth.pk is None)"@,
            DepositTxSignError::KeyMismatch { key_type, expected, provided } =>
                key_mismatch_text(key_type, expected, provided),
        }
    }

    /// The message.
    pub fn message(&self) -> (r: String)
        ensures
            r@ == self.text(),
    {
        let mut out = String::new();
        match self {
            DepositTxSignError::ConsumeDelegated => {
                out.append("Consume auth is delegated to subpool owner (config=false)");
            },
            DepositTxSignError::ConsumeKeyNotSet => {
                out.append("Consume key not set (consume_auth.pk is None)");
            },
            DepositTxSignError::KeyMismatch { key_type, expected, provided } => {
                append_key_mismatch(&mut out, key_type, expected, provided);
            },
        }
        assert(out@ =~= self.text());
        out
    }
}

/// Errors that can occur while building a withdrawal.
#[derive(Clone, Copy, Debug, PartialEq, Eq, Structural)]
pub enum WithdrawTxBuilderError {
    AccountNotInitialized,
    TooManyWithdrawals { limit: usize },
    NoWithdrawals,
    InsufficientBalance { asset_id: AssetId, balance: U256, withdrawal: U256 },
    AccinNotInStateTree,
    ApprovalSignRequired,
    SubpoolNotFound,
    TreeError(MerkleTreeError),
}

impl WithdrawTxBuilderError {
    /// The message, in contracts.
    pub open spec fn text(self) -> Seq<char> {
        match self {
            WithdrawTxBuilderError::AccountNotInitialized =>
                "Account not initialized (nonce=0). Must perform FreshAcc first"@,
            WithdrawTxBuilderError::TooManyWithdrawals { limit } =>
                "Too many withdrawals: limit is "@ + decimal_text(limit as nat),
            WithdrawTxBuilderError::NoWithdrawals =>
                "Must add at least one withdrawal before build()"@,
            WithdrawTxBuilderError::InsufficientBalance { asset_id, balance, withdrawal } =>
                "Insufficient balance for asset "@ + asset_text(asset_id) + ": balance="@
                    + decimal_text(balance.value()) + ", withdrawal="@ + decimal_text(
                    withdrawal.value(),
                ),
            WithdrawTxBuilderError::AccinNotInStateTree =>
                "Account commitment not found in state tree"@,
            WithdrawTxBuilderError::ApprovalSignRequired =>
                "Must call approval_sign() before into_withdraw_tx()"@,
            WithdrawTxBuilderError::SubpoolNotFound => "Subpool not found in main pool config"@,
            WithdrawTxBuilderError::TreeError(e) => "Tree error: "@ + tree_error_text(e),
        }
    }

    /// The message.
    pub fn message(&self) -> (r: String)
        ensures
            r@ == self.text(),
    {
        let mut out = String::new();
        match self {
            WithdrawTxBuilderError::AccountNotInitialized => {
                out.append("Account not initialized (nonce=0). Must perform FreshAcc first");
            },
            WithdrawTxBuilderError::TooManyWithdrawals { limit } => {
                out.append("Too many withdrawals: limit is ");
                append_decimal(&mut out, *limit as u64);
            },
            WithdrawTxBuilderError::NoWithdrawals => {
                out.append("Must add at least one withdrawal before build()");
            },
            WithdrawTxBuilderError::InsufficientBalance { asset_id, balance, withdrawal } => {
                out.append("Insufficient balance for asset ");
                append_asset(&mut out, *asset_id);
                out.append(": balance=");
                append_u256(&mut out, balance);
                out.append(", withdrawal=");
                append_u256(&mut out, withdrawal);
            },
            WithdrawTxBuilderError::AccinNotInStateTree => {
                out.append("Account commitment not found in state tree");
            },
            WithdrawTxBuilderError::ApprovalSignRequired => {
                out.append("Must call approval_sign() before into_withdraw_tx()");
            },
            WithdrawTxBuilderError::SubpoolNotFound => {
                out.append("Subpool not found in main pool config");
            },
            WithdrawTxBuilderError::TreeError(e) => {
                append_tree_error(&mut out, e);
            },
        }
        assert(out@ =~= self.text());
        out
    }
}

} // verus!
