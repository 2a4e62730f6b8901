//! The inputs of private transactions, of whatever kind.
use vstd::prelude::*;

use crate::account::StandardAccount;
use crate::fake_tx::{
    fake_approval, fake_consume, fake_spend, set_fake_tx_witness, FakeTxInputs,
};
use crate::field::F;
use crate::freshacc_tx::{idle_consume, set_freshacc_tx_witness, FreshAccInputs};
use crate::hash::is_sponge;
use crate::priv_tx::TxCircuitTargets;
use crate::reject_tx::{idle_spend, set_reject_tx_witness, RejectTxInputs};
use crate::tx_witness::{
    consume_input, finished, set_spend_tx_witness, signable, spend_input, PreparedTx, SignatureInput,
    SpendTxInputs,
};

verus! {

/// The inputs of a private transaction. The `Fake` variant is a dummy; all others
/// are real transactions.
pub enum PrivTxInputs {
    FreshAcc(FreshAccInputs),
    Spend(SpendTxInputs),
    Reject(RejectTxInputs),
    Fake(FakeTxInputs),
}

impl PrivTxInputs {
    /// Whether the inputs can be worked on.
    pub open spec fn valid<H: Fn(Vec<F>, usize) -> Vec<F>>(&self, h: H) -> bool {
        match self {
            PrivTxInputs::FreshAcc(i) => i.valid(h),
            PrivTxInputs::Spend(i) => i.valid(h),
            PrivTxInputs::Reject(i) => i.valid(h),
            PrivTxInputs::Fake(_) => true,
        }
    }

    /// Whether the state tree of the account has its shape.
    pub open spec fn shaped(&self) -> bool {
        match self {
            PrivTxInputs::FreshAcc(i) => i.accin.ast.shape(),
            PrivTxInputs::Spend(i) => i.accin.ast.shape(),
            PrivTxInputs::Reject(i) => i.accin.ast.shape(),
            PrivTxInputs::Fake(_) => true,
        }
    }

    /// What is asked of the inputs beyond their trees.
    pub open spec fn fits(&self) -> bool {
        match self {
            PrivTxInputs::FreshAcc(i) => i.new_consume_auth.valid(),
            PrivTxInputs::Spend(i) => i.fits(),
            PrivTxInputs::Reject(i) => i.fits(),
            PrivTxInputs::Fake(_) => true,
        }
    }

    /// Whether the inputs fit.
    pub fn is_fit(&self) -> (r: bool)
        requires
            self.shaped(),
        ensures
            r == self.fits(),
    {
        match self {
            PrivTxInputs::FreshAcc(i) => i.new_consume_auth.is_valid(),
            PrivTxInputs::Spend(i) => i.is_fit(),
            PrivTxInputs::Reject(i) => i.is_fit(),
            PrivTxInputs::Fake(_) => true,
        }
    }

    /// Whether wires are those of the transaction.
    pub open spec fn wires<H: Fn(Vec<F>, usize) -> Vec<F>>(&self, h: H, t: TxCircuitTargets) -> bool {
        match *self {
            PrivTxInputs::FreshAcc(i) => i.registered(h) && exists|
                p: PreparedTx,
                accout: StandardAccount,
            | #[trigger]
                i.prepared(h, p, &accout) && finished(
                    h,
                    p,
                    idle_spend(),
                    idle_consume(),
                    SignatureInput::Real(i.approval_sig),
                    t,
                ),
            PrivTxInputs::Spend(i) => i.registered(h) && exists|
                p: PreparedTx,
                accout: StandardAccount,
            | #[trigger]
                i.prepared(h, p, &accout) && finished(
                    h,
                    p,
                    spend_input(i.spend_sig),
                    consume_input(i.consume_sig),
                    SignatureInput::Real(i.approval_sig),
                    t,
                ),
            PrivTxInputs::Reject(i) => i.registered(h) && exists|
                p: PreparedTx,
                accout: StandardAccount,
            | #[trigger]
                i.prepared(h, p, &accout) && finished(
                    h,
                    p,
                    idle_spend(),
                    SignatureInput::Real(i.consume_sig),
                    SignatureInput::Real(i.approval_sig),
                    t,
                ),
            PrivTxInputs::Fake(i) => exists|
                p: PreparedTx,
                accin: StandardAccount,
                accout: StandardAccount,
            | #[trigger]
                i.prepared(h, p, &accin, &accout) && finished(
                    h,
                    p,
                    fake_spend(),
                    fake_consume(),
                    fake_approval(),
                    t,
                ),
        }
    }

    /// Whether nothing but the signatures can keep the wires from being computed:
    /// the subpool is registered, or the transaction is a dummy.
    pub open spec fn ready<H: Fn(Vec<F>, usize) -> Vec<F>>(&self, h: H) -> bool {
        match self {
            PrivTxInputs::FreshAcc(i) => i.registered(h),
            PrivTxInputs::Spend(i) => i.registered(h),
            PrivTxInputs::Reject(i) => i.registered(h),
            PrivTxInputs::Fake(_) => true,
        }
    }

    /// Whether the wires of a signature cannot be computed.
    pub open spec fn unsignable<H: Fn(Vec<F>, usize) -> Vec<F>>(&self, h: H) -> bool {
        match *self {
            PrivTxInputs::FreshAcc(i) => exists|p: PreparedTx, accout: StandardAccount| #[trigger]
                i.prepared(h, p, &accout) && !signable(
                    h,
                    p,
                    idle_spend(),
                    idle_consume(),
                    SignatureInput::Real(i.approval_sig),
                ),
            PrivTxInputs::Spend(i) => exists|p: PreparedTx, accout: StandardAccount| #[trigger]
                i.prepared(h, p, &accout) && !signable(
                    h,
                    p,
                    spend_input(i.spend_sig),
                    consume_input(i.consume_sig),
                    SignatureInput::Real(i.approval_sig),
                ),
            PrivTxInputs::Reject(i) => exists|p: PreparedTx, accout: StandardAccount| #[trigger]
                i.prepared(h, p, &accout) && !signable(
                    h,
                    p,
                    idle_spend(),
                    SignatureInput::Real(i.consume_sig),
                    SignatureInput::Real(i.approval_sig),
                ),
            PrivTxInputs::Fake(i) => exists|
                p: PreparedTx,
                accin: StandardAccount,
                accout: StandardAccount,
            | #[trigger]
                i.prepared(h, p, &accin, &accout) && !signable(
                    h,
                    p,
                    fake_spend(),
                    fake_consume(),
                    fake_approval(),
                ),
        }
    }

    /// Computes all wires of a private transaction; `None` where its subpool is not
    /// registered, or the wires of a signature cannot be computed.
    pub fn set_witness<H: Fn(Vec<F>, usize) -> Vec<F>>(&self, h: &H) -> (r: Option<
        TxCircuitTargets,
    >)
        requires
            is_sponge(*h),
            self.valid(*h),
        ensures
            r matches Some(t) ==> self.wires(*h, t),
            r is None ==> !self.ready(*h) || self.unsignable(*h),
            !self.ready(*h) ==> r is None,
    {
        match self {
            PrivTxInputs::FreshAcc(i) => set_freshacc_tx_witness(h, i),
            PrivTxInputs::Spend(i) => set_spend_tx_witness(h, i),
            PrivTxInputs::Reject(i) => set_reject_tx_witness(h, i),
            PrivTxInputs::Fake(i) => set_fake_tx_witness(h, i),
        }
    }
}

} // verus!
