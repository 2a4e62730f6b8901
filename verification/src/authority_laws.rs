//! A transaction that was built, completed and signed meets all conditions of a
//! private transaction.
use vstd::arithmetic::power2::pow2;
use vstd::prelude::*;

use crate::builder_laws::lemma_built_freshacc_satisfied;
use crate::built_priv_tx::BuiltPrivTx;
use crate::circuit::subpool_proven;
use crate::ecgfp5::PointEw;
use crate::fake_tx::approval_input;
use crate::field::F;
use crate::freshacc_builder::{BuiltFreshAccTx, FreshAccTxBuilder};
use crate::hash::HashOutput;
use crate::priv_tx::{
    accounts_hold, consume_key, consume_required, notes_hold, priv_tx_holds, spec_tx_hash, spend_required, tx_signatures,
    TxCircuitTargets, TxSignatureTargets,
};
use crate::scalar::Scalar;
use crate::schnorr::CompPubKey;
use crate::schnorr_gadget::{schnorr_holds, SchnorrTargets};
use crate::schnorr_gadget_laws::chain_regular;
use crate::signature_wires::{can_fake, can_wire, decodes_as, tx_challenge};
use crate::spend_builder::{BuiltSpendTx, SpendTxBuilder};
use crate::spend_laws::{
    lemma_built_spend_satisfied, lemma_required_signatures, spend_proven, stems_from,
};
use crate::tx_witness::{consume_input, finished, spend_input, wired, PreparedTx, SignatureInput};
use crate::wire_laws::{answers, lemma_fake_wires_hold, lemma_real_wires_hold};

verus! {

/// Whether the wires of a signature can be computed and the chain of gates meets no
/// vertical line, for the point that the key stands for.
pub open spec fn clear<H: Fn(Vec<F>, usize) -> Vec<F>>(
    h: H,
    key: CompPubKey,
    tx_hash: HashOutput,
    input: SignatureInput,
) -> bool {
    &&& key.0.w.canonical()
    &&& match input {
        SignatureInput::Real(sig) => {
            &&& sig.s.reduced()
            &&& answers(h, key, tx_hash, sig)
            &&& forall|q: PointEw| #[trigger]
                decodes_as(key.0.w, q) ==> {
                    &&& !q.at_inf
                    &&& can_wire(h, key, tx_hash, sig, q)
                    &&& chain_regular(q, tx_challenge(h, key, tx_hash, sig), sig.s.value())
                }
        },
        SignatureInput::Fake { e, s } => {
            &&& Scalar(e).value() < pow2(319)
            &&& Scalar(s).value() < pow2(319)
            &&& forall|q: PointEw| #[trigger]
                decodes_as(key.0.w, q) ==> {
                    &&& !q.at_inf
                    &&& can_fake(key, Scalar(e).value(), Scalar(s).value(), q)
                    &&& chain_regular(q, Scalar(e).value(), Scalar(s).value())
                }
        },
    }
}

/// The wires of a signature meet its conditions; where the check of the challenge
/// applies, the signature must be a real one.
pub proof fn lemma_wired_holds<H: Fn(Vec<F>, usize) -> Vec<F>>(
    h: H,
    key: CompPubKey,
    tx_hash: HashOutput,
    input: SignatureInput,
    apply_check: bool,
    t: SchnorrTargets,
)
    requires
        clear(h, key, tx_hash, input),
        wired(h, key, tx_hash, input, t),
        apply_check ==> input is Real,
    ensures
        schnorr_holds(h, tx_hash, key, apply_check, t),
{
    let q = choose|q: PointEw| #[trigger] decodes_as(key.0.w, q);
    match input {
        SignatureInput::Real(sig) => {
            lemma_real_wires_hold(h, key, tx_hash, sig, q, apply_check, t);
        },
        SignatureInput::Fake { e, s } => {
            lemma_fake_wires_hold(
                h,
                key,
                tx_hash,
                Scalar(e).value(),
                Scalar(s).value(),
                q,
                t,
            );
        },
    }
}

/// Whether the wires of the three signatures of a transaction can be computed.
pub open spec fn all_clear<H: Fn(Vec<F>, usize) -> Vec<F>>(
    h: H,
    x: BuiltPrivTx,
    p: PreparedTx,
) -> bool {
    let v = p.private;
    &&& clear(h, v.accin.spend_auth, x.tx_hash, spend_input(x.spend_sig))
    &&& clear(h, consume_key(v), x.tx_hash, consume_input(x.consume_sig))
    &&& clear(h, v.approval_key, x.tx_hash, approval_input(x.approval_sig))
}

/// Whether the signatures that a transaction requires are there, and the wires of
/// all three can be computed.
pub open spec fn signed<H: Fn(Vec<F>, usize) -> Vec<F>>(h: H, x: BuiltPrivTx, p: PreparedTx) -> bool {
    let v = p.private;
    &&& spend_required(v) ==> x.spend_sig is Some
    &&& consume_required(v) ==> x.consume_sig is Some
    &&& p.public.not_fake_tx ==> x.approval_sig is Some
    &&& all_clear(h, x, p)
}

/// The wires of the signatures of a built transaction meet their conditions.
pub proof fn lemma_authorized_holds<H: Fn(Vec<F>, usize) -> Vec<F>>(
    h: H,
    x: BuiltPrivTx,
    p: PreparedTx,
    sigs: TxSignatureTargets,
)
    requires
        x.prepared(h, p),
        x.authorized(h, p.private, sigs),
        signed(h, x, p),
    ensures
        tx_signatures(h, x.tx_hash, p.private, sigs, p.public.not_fake_tx),
{
    let v = p.private;
    lemma_wired_holds(
        h,
        v.accin.spend_auth,
        x.tx_hash,
        spend_input(x.spend_sig),
        spend_required(v),
        sigs.spend,
    );
    lemma_wired_holds(
        h,
        consume_key(v),
        x.tx_hash,
        consume_input(x.consume_sig),
        consume_required(v),
        sigs.consume,
    );
    lemma_wired_holds(
        h,
        v.approval_key,
        x.tx_hash,
        approval_input(x.approval_sig),
        p.public.not_fake_tx,
        sigs.approval,
    );
}

/// A prepared transaction of any kind that was finished with its signatures meets all
/// conditions, where it meets those on accounts, notes and authorities, and the
/// signatures that it requires are real ones.
pub proof fn lemma_finished_holds<H: Fn(Vec<F>, usize) -> Vec<F>>(
    h: H,
    p: PreparedTx,
    spend: SignatureInput,
    consume: SignatureInput,
    approval: SignatureInput,
    t: TxCircuitTargets,
)
    requires
        accounts_hold(h, p.public, p.private),
        notes_hold(h, p.public, p.private),
        subpool_proven(
            h,
            p.private.accin.subpool_id,
            p.private.approval_key,
            p.private.rejection_key,
            p.private.subpool_consume_key,
            p.public.mainpool_config_root,
            p.public.not_fake_tx,
            p.private.subpool_proof_targets,
        ),
        p.private.flags.not_fake_tx == p.public.not_fake_tx,
        p.tx_hash == spec_tx_hash(h, p.public),
        p.spend_key == p.private.accin.spend_auth,
        p.consume_key == consume_key(p.private),
        finished(h, p, spend, consume, approval, t),
        clear(h, p.spend_key, p.tx_hash, spend),
        clear(h, p.consume_key, p.tx_hash, consume),
        clear(h, p.private.approval_key, p.tx_hash, approval),
        spend_required(p.private) ==> spend is Real,
        consume_required(p.private) ==> consume is Real,
        p.public.not_fake_tx ==> approval is Real,
    ensures
        priv_tx_holds(h, t),
{
    let v = p.private;
    let sigs = t.sig_targets;
    lemma_wired_holds(h, p.spend_key, p.tx_hash, spend, spend_required(v), sigs.spend);
    lemma_wired_holds(h, p.consume_key, p.tx_hash, consume, consume_required(v), sigs.consume);
    lemma_wired_holds(
        h,
        v.approval_key,
        p.tx_hash,
        approval,
        p.public.not_fake_tx,
        sigs.approval,
    );
}

/// A spend that was built, completed with proofs that hold and signed as
/// `required_signatures` says meets all conditions of a private transaction.
pub proof fn lemma_signed_spend_holds<H: Fn(Vec<F>, usize) -> Vec<F>>(
    h: H,
    b: SpendTxBuilder,
    s: BuiltSpendTx,
    x: BuiltPrivTx,
    p: PreparedTx,
    sigs: TxSignatureTargets,
)
    requires
        b.wf(h),
        stems_from(h, b, s),
        s.completed(x),
        spend_proven(h, b, s, x),
        x.slots_fit(),
        x.prepared(h, p),
        x.authorized(h, p.private, sigs),
        s.required().spend ==> s.spend_sig is Some,
        s.required().consume ==> s.consume_sig is Some,
        s.approval_sig is Some,
        all_clear(h, x, p),
    ensures
        priv_tx_holds(
            h,
            TxCircuitTargets { public: p.public, private: p.private, sig_targets: sigs },
        ),
{
    lemma_built_spend_satisfied(h, b, s, x, p);
    lemma_required_signatures(h, b, s, x, p);
    lemma_authorized_holds(h, x, p, sigs);
}

/// A first transaction that was built for a fresh account, completed with proofs
/// that hold and approved meets all conditions of a private transaction.
pub proof fn lemma_signed_freshacc_holds<H: Fn(Vec<F>, usize) -> Vec<F>>(
    h: H,
    b: FreshAccTxBuilder,
    s: BuiltFreshAccTx,
    x: BuiltPrivTx,
    p: PreparedTx,
    sigs: TxSignatureTargets,
)
    requires
        b.wf(h),
        b.accin.spec_is_fresh(),
        b.built(
            h,
            BuiltFreshAccTx { state_root: None, subpool_proof: None, approval_sig: None, ..s },
        ),
        !s.accout.consume_auth.config ==> s.accout.consume_auth.pk is None,
        s.completed(x),
        x.prepared(h, p),
        subpool_proven(
            h,
            b.accin.subpool_id,
            x.approval_key,
            x.rejection_key,
            x.consume_key,
            x.main_pool_root,
            true,
            x.subpool_proof,
        ),
        x.authorized(h, p.private, sigs),
        signed(h, x, p),
    ensures
        priv_tx_holds(
            h,
            TxCircuitTargets { public: p.public, private: p.private, sig_targets: sigs },
        ),
{
    lemma_built_freshacc_satisfied(h, b, s, x, p);
    lemma_authorized_holds(h, x, p, sigs);
}

} // verus!
