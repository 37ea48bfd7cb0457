//! What holds of the pallet whatever is done with it.
//!
//! A [`Call`] stands for one use of an operation, and applying it to a state
//! says what that use does. The laws below hold of every call on every
//! well-formed state, and so of every state a pallet can ever be in.
use crate::escrow::lemma_step_escrow;
use crate::history::{
    additions_fresh, all_pending_wait, approves_by_hand, claim_kept, escrow, keeps_clear,
    last_origin_verdict, waits,
    origin_flag_follows, origin_flag_sound, origin_flags_follow, product_follows, released,
    released_over, reserved_for, reserved_over, run, moves_forward, settles_only, transferred,
};
use crate::invariants::{
    lemma_deactivate_product, lemma_genesis, lemma_handle_cross_chain_message, lemma_locate,
    lemma_register_product,
    lemma_remove_cross_chain, lemma_revoke_claim, lemma_set_verifier_authorization,
    lemma_settling_moves_forward, lemma_submit, lemma_tick, lemma_update_product_info,
    lemma_update_verification_fee, lemma_verify_claim,
};
use crate::keys::{
    lemma_position, lemma_position_absent, position, AccountId, Balance, BlockNumber,
};
use crate::model::{claim_ids, cross_chain_ids, effects_of, pending_ids, Call, PalletView};
use crate::origin::{lemma_sound_step, lemma_step_flags};
use crate::runtime_integration::{
    ClaimTypeView, ClaimVerifier, CrossChainMessageView, VerificationResultView,
};
use crate::types::{Config, EffectView};
use crate::waiting::lemma_step_waiting;
use vstd::prelude::*;

verus! {

/// Every call takes a well-formed state to a well-formed state, and a
/// refused call leaves the state as it is.
pub proof fn law_stays_well_formed<V: ClaimVerifier>(before: PalletView, call: Call<V>)
    requires
        before.wf(),
    ensures
        before.apply(call).state.wf(),
        before.apply(call).outcome is Err ==> before.apply(call).state == before,
{
    lemma_step(before, call);
    lemma_step_flags(before, call);
    lemma_sound_step(before, before.apply(call).state);
}

/// The origin flag of a product changes only where a claim about the
/// product's country of origin is settled: a call that revokes such a
/// claim clears the flag, a call that approves one sets it, and after any
/// other call the flag is what it was. A claim that is rejected, that fails
/// or that times out changes no flag. So the flag says at any time which
/// came last for the product, an approval or a revocation of a claim about
/// its origin; before the first approval it is not set.
pub proof fn law_origin_flag<V: ClaimVerifier>(before: PalletView, call: Call<V>)
    requires
        before.consistent(),
    ensures
        origin_flags_follow(before, before.apply(call).state),
        additions_fresh(before, before.apply(call).state),
{
    lemma_step_flags(before, call);
}

/// In a well-formed state a product whose origin flag is set holds an approved
/// claim about its country of origin, and a product that holds such a
/// claim, and none that was revoked, has its flag set.
pub proof fn law_origin_flag_sound(state: PalletView, p: int)
    requires
        state.wf(),
        0 <= p < state.records.len(),
    ensures
        origin_flag_sound(state.records[p]),
{
}

/// Within a product no two claims share a name, in any consistent state: a
/// product never holds more than one claim of a name.
pub proof fn law_claim_names_unique(state: PalletView, p: int, c: int, d: int)
    requires
        state.consistent(),
        0 <= p < state.records.len(),
        0 <= c < state.records[p].claims.len(),
        0 <= d < state.records[p].claims.len(),
        state.records[p].claims[c].claim_id == state.records[p].claims[d].claim_id,
    ensures
        c == d,
{
    assert(state.record_in_order(p));
    let ids = claim_ids(state.records[p].claims);
    assert(ids[c] == state.records[p].claims[c].claim_id);
    assert(ids[d] == state.records[p].claims[d].claim_id);
}

/// No call removes, moves or rewrites a product or a claim, and no call
/// changes the status of a claim but to settle a pending claim, as
/// approved, rejected, failed or timed out, or to revoke an approved one.
/// A claim that was rejected, that failed, that timed out or that was
/// revoked stays so for good.
pub proof fn law_status_moves_forward<V: ClaimVerifier>(before: PalletView, call: Call<V>)
    requires
        before.consistent(),
    ensures
        moves_forward(before, before.apply(call).state),
        !(call is RevokeClaim) ==> settles_only(before, before.apply(call).state),
{
    lemma_step(before, call);
}

/// What is held in escrow changes only by what goes in and what comes out:
/// after every call, what the pending claims hold and what the call
/// released make up what the pending claims held before and what the host
/// reserved for the call, which is the fee of the claim where the call
/// hands one in and nothing otherwise. The fee of a claim is fixed when the
/// claim is handed in, it is held while the claim is pending, and it is
/// released by the call that settles the claim; as no claim is pending
/// again once it is settled, no fee is reserved or released twice. A call
/// that approves a claim by hand moves on to the verifier and the
/// administrator exactly what it releases; no other call moves anything.
pub proof fn law_escrow_conserved<V: ClaimVerifier>(before: PalletView, call: Call<V>)
    requires
        before.consistent(),
    ensures
        escrow(before.apply(call).state.records) + released(effects_of(before.apply(call)))
            == escrow(before.records) + reserved_for(before, call),
        transferred(effects_of(before.apply(call))) == if approves_by_hand(before, call) {
            released(effects_of(before.apply(call)))
        } else {
            0
        },
{
    lemma_step_escrow(before, call);
}

/// A scheduler tick examines no more waiting entries than the configured
/// limit allows, however many wait. It removes no more entries than it
/// examines, it hands the host no more than three effects for each, and it
/// costs no more than 10 000 of computation time for each and no proof
/// size.
pub proof fn law_tick_bounded<V: ClaimVerifier>(before: PalletView, verifier: V, now: BlockNumber)
    requires
        before.consistent(),
    ensures
        before.tick(verifier, now).examined <= before.config.verification_limit,
        before.tick(verifier, now).effects.len() <= 3 * before.tick(verifier, now).examined,
        before.tick(verifier, now).weight.ref_time <= 10_000 * before.tick(verifier, now).examined,
        before.tick(verifier, now).weight.proof_size == 0,
        before.pending.len() + before.cross_chain.len() <= before.tick(
            verifier,
            now,
        ).state.pending.len() + before.tick(verifier, now).state.cross_chain.len() + before.tick(
            verifier,
            now,
        ).examined,
{
    let limit = before.config.verification_limit as nat;
    lemma_tick(before, verifier, now);
    lemma_sweep_pending_bounded(before, verifier, now, 0, limit);
    let local = before.sweep_pending(verifier, now, 0, limit);
    crate::invariants::lemma_sweep_pending(before, verifier, now, 0, limit);
    lemma_sweep_cross_chain_bounded(local.state, now, 0, (limit - local.examined) as nat);
}

/// An answer of a counterparty chain that carries a verdict has its effect
/// once: delivered again, at any time and from any chain, it changes
/// nothing and hands the host nothing to do.
pub proof fn law_response_idempotent(
    before: PalletView,
    para_id: u32,
    claim_id: Seq<u8>,
    result: VerificationResultView,
    now: BlockNumber,
    again_from: u32,
    again_at: BlockNumber,
)
    requires
        before.consistent(),
        !(result is Pending),
    ensures
        ({
            let message = CrossChainMessageView::VerificationResponse { claim_id, result };
            let once = before.handle_cross_chain_message(para_id, message, now);
            let twice = once.state.handle_cross_chain_message(again_from, message, again_at);
            &&& twice.state == once.state
            &&& twice.outcome == Ok::<Seq<EffectView>, crate::types::Error>(Seq::empty())
        }),
{
    let message = CrossChainMessageView::VerificationResponse { claim_id, result };
    let once = before.handle_cross_chain_message(para_id, message, now);
    let ids = cross_chain_ids(before.cross_chain);
    lemma_position(ids, claim_id);
    match position(ids, claim_id) {
        None => {},
        Some(at) => {
            let left = before.cross_chain.remove(at);
            lemma_remove_cross_chain(before.cross_chain, at);
            assert(ids[at] == before.cross_chain[at].claim_id);
            assert(once.state.cross_chain == left);
            assert forall|j: int| 0 <= j < left.len() implies cross_chain_ids(left)[j]
                != claim_id by {
                assert(left[j].claim_id != before.cross_chain[at].claim_id);
            }
            lemma_position_absent(cross_chain_ids(left), claim_id);
        },
    }
}

/// An answer of a counterparty chain for a claim that waits for none, be it
/// settled or timed out, changes nothing and hands the host nothing to do.
pub proof fn law_late_response_ignored(
    before: PalletView,
    para_id: u32,
    claim_id: Seq<u8>,
    result: VerificationResultView,
    now: BlockNumber,
)
    requires
        forall|e: int|
            0 <= e < before.cross_chain.len() ==> (#[trigger] before.cross_chain[e]).claim_id
                != claim_id,
    ensures
        ({
            let message = CrossChainMessageView::VerificationResponse { claim_id, result };
            let step = before.handle_cross_chain_message(para_id, message, now);
            &&& step.state == before
            &&& step.outcome == Ok::<Seq<EffectView>, crate::types::Error>(Seq::empty())
        }),
{
    let ids = cross_chain_ids(before.cross_chain);
    assert forall|j: int| 0 <= j < ids.len() implies ids[j] != claim_id by {
        assert(before.cross_chain[j].claim_id != claim_id);
    }
    lemma_position_absent(ids, claim_id);
}

/// A claim that is settled waits nowhere: in a consistent state no entry, local
/// or cross-chain, leads to a claim that is not pending.
pub proof fn law_settled_claims_wait_nowhere(state: PalletView, p: int, c: int)
    requires
        state.consistent(),
        0 <= p < state.records.len(),
        0 <= c < state.records[p].claims.len(),
        !(state.records[p].claims[c].status is Pending),
    ensures
        forall|e: int|
            0 <= e < state.pending.len() ==> state.locate(
                (#[trigger] state.pending[e]).product_id,
                state.pending[e].claim_id,
            ) != Some((p, c)),
        forall|e: int|
            0 <= e < state.cross_chain.len() ==> state.locate(
                (#[trigger] state.cross_chain[e]).product_id,
                state.cross_chain[e].claim_id,
            ) != Some((p, c)),
{
    assert forall|e: int| 0 <= e < state.pending.len() implies state.locate(
        (#[trigger] state.pending[e]).product_id,
        state.pending[e].claim_id,
    ) != Some((p, c)) by {
        assert(state.awaits(state.pending[e].product_id, state.pending[e].claim_id, false));
    }
    assert forall|e: int| 0 <= e < state.cross_chain.len() implies state.locate(
        (#[trigger] state.cross_chain[e]).product_id,
        state.cross_chain[e].claim_id,
    ) != Some((p, c)) by {
        assert(state.awaits(state.cross_chain[e].product_id, state.cross_chain[e].claim_id, true));
    }
}

/// Whatever is done with a pallet, it stays well formed: the state after any
/// history of calls on the state that genesis builds is well formed.
pub proof fn law_always_well_formed<V: ClaimVerifier>(
    config: Config,
    verifiers: Seq<(AccountId, bool)>,
    fees: Seq<(ClaimTypeView, Balance)>,
    calls: Seq<Call<V>>,
)
    ensures
        run(PalletView::genesis(config, verifiers, fees), calls).wf(),
    decreases calls.len(),
{
    let start = PalletView::genesis(config, verifiers, fees);
    if calls.len() == 0 {
        lemma_genesis(config, verifiers, fees);
    } else {
        law_always_well_formed(config, verifiers, fees, calls.drop_last());
        law_stays_well_formed(run(start, calls.drop_last()), calls.last());
    }
}

/// A claim is for good: after any history of calls it stands where it
/// stood, as it was handed in, in a status it may have come to. A claim that
/// was rejected, that failed, that timed out or that was revoked is so
/// ever after, and a claim that was approved is approved or revoked.
pub proof fn law_claims_for_good<V: ClaimVerifier>(
    start: PalletView,
    calls: Seq<Call<V>>,
    p: int,
    c: int,
)
    requires
        start.consistent(),
        0 <= p < start.records.len(),
        0 <= c < start.records[p].claims.len(),
    ensures
        run(start, calls).consistent(),
        p < run(start, calls).records.len(),
        c < run(start, calls).records[p].claims.len(),
        product_follows(start.records[p].product, run(start, calls).records[p].product),
        claim_kept(start.records[p].claims[c], run(start, calls).records[p].claims[c]),
        start.records[p].claims[c].status.may_end_as(
            run(start, calls).records[p].claims[c].status,
        ),
    decreases calls.len(),
{
    if calls.len() > 0 {
        let before = run(start, calls.drop_last());
        law_claims_for_good(start, calls.drop_last(), p, c);
        lemma_step(before, calls.last());
        let after = before.apply(calls.last()).state;
        assert(product_follows(before.records[p].product, after.records[p].product));
        assert(claim_kept(before.records[p].claims[c], after.records[p].claims[c]));
        assert(before.records[p].claims[c].status.may_become(after.records[p].claims[c].status));
    }
}

/// Over any history of calls, what is held in escrow at the end and what
/// the calls released make up what was held at the start and what the host
/// reserved for the calls.
pub proof fn law_escrow_conserved_over_time<V: ClaimVerifier>(
    start: PalletView,
    calls: Seq<Call<V>>,
)
    requires
        start.consistent(),
    ensures
        run(start, calls).consistent(),
        escrow(run(start, calls).records) + released_over(start, calls) == escrow(start.records)
            + reserved_over(start, calls),
    decreases calls.len(),
{
    if calls.len() > 0 {
        law_escrow_conserved_over_time(start, calls.drop_last());
        lemma_step(run(start, calls.drop_last()), calls.last());
        lemma_step_escrow(run(start, calls.drop_last()), calls.last());
    }
}

/// After any history of calls the origin flag of a product says which came
/// last in the history, the approval or the revocation of a claim about the
/// product's country of origin; where neither came, the flag is what it
/// was at the start.
pub proof fn law_origin_flag_tells_the_latest<V: ClaimVerifier>(
    start: PalletView,
    calls: Seq<Call<V>>,
    p: int,
)
    requires
        start.consistent(),
        0 <= p < start.records.len(),
    ensures
        run(start, calls).consistent(),
        p < run(start, calls).records.len(),
        run(start, calls).records[p].product.origin_verified == match last_origin_verdict(
            start,
            calls,
            p,
        ) {
            Some(verdict) => verdict,
            None => start.records[p].product.origin_verified,
        },
    decreases calls.len(),
{
    if calls.len() > 0 {
        let before = run(start, calls.drop_last());
        law_origin_flag_tells_the_latest(start, calls.drop_last(), p);
        lemma_step(before, calls.last());
        lemma_step_flags(before, calls.last());
        let after = before.apply(calls.last()).state;
        assert(origin_flag_follows(before.records[p], after.records[p]));
    }
}

/// A pending claim keeps its waiting entry until it is settled: where
/// every pending claim has its entry, it has it after every call that keeps
/// clear of the waiting entries of other products. A pallet starts without
/// claims, so that all its pending claims have their entries as long as no
/// two products have claims of one name waiting at a time.
pub proof fn law_pending_claims_wait<V: ClaimVerifier>(before: PalletView, call: Call<V>)
    requires
        before.consistent(),
        all_pending_wait(before),
        keeps_clear(before, call),
    ensures
        all_pending_wait(before.apply(call).state),
{
    lemma_step_waiting(before, call);
}

/// A claim has one waiting entry while it is pending and none once it is
/// settled: in a consistent state whose pending claims have their entries,
/// a waiting entry that leads to a claim is the entry of a pending claim,
/// found under the claim's name among the entries of the claim's kind.
pub proof fn law_one_entry_while_pending(state: PalletView, p: int, c: int)
    requires
        state.consistent(),
        all_pending_wait(state),
        0 <= p < state.records.len(),
        0 <= c < state.records[p].claims.len(),
    ensures
        state.records[p].claims[c].status is Pending ==> waits(state, p, c),
        forall|e: int|
            0 <= e < state.pending.len() && state.locate(
                (#[trigger] state.pending[e]).product_id,
                state.pending[e].claim_id,
            ) == Some((p, c)) ==> {
                &&& state.records[p].claims[c].status is Pending
                &&& !state.records[p].claims[c].is_cross_chain
                &&& state.pending_entry(state.records[p].claims[c].claim_id) == Some(
                    state.pending[e],
                )
            },
        forall|e: int|
            0 <= e < state.cross_chain.len() && state.locate(
                (#[trigger] state.cross_chain[e]).product_id,
                state.cross_chain[e].claim_id,
            ) == Some((p, c)) ==> {
                &&& state.records[p].claims[c].status is Pending
                &&& state.records[p].claims[c].is_cross_chain
                &&& state.cross_chain_entry(state.records[p].claims[c].claim_id) == Some(
                    state.cross_chain[e],
                )
            },
{
    assert forall|e: int|
        0 <= e < state.pending.len() && state.locate(
            (#[trigger] state.pending[e]).product_id,
            state.pending[e].claim_id,
        ) == Some((p, c)) implies {
        &&& state.records[p].claims[c].status is Pending
        &&& !state.records[p].claims[c].is_cross_chain
        &&& state.pending_entry(state.records[p].claims[c].claim_id) == Some(state.pending[e])
    } by {
        let entry = state.pending[e];
        assert(state.awaits(entry.product_id, entry.claim_id, false));
        lemma_locate(state, entry.product_id, entry.claim_id);
        let ids = pending_ids(state.pending);
        assert(ids[e] == entry.claim_id);
        lemma_position(ids, entry.claim_id);
    }
    assert forall|e: int|
        0 <= e < state.cross_chain.len() && state.locate(
            (#[trigger] state.cross_chain[e]).product_id,
            state.cross_chain[e].claim_id,
        ) == Some((p, c)) implies {
        &&& state.records[p].claims[c].status is Pending
        &&& state.records[p].claims[c].is_cross_chain
        &&& state.cross_chain_entry(state.records[p].claims[c].claim_id) == Some(
            state.cross_chain[e],
        )
    } by {
        let entry = state.cross_chain[e];
        assert(state.awaits(entry.product_id, entry.claim_id, true));
        lemma_locate(state, entry.product_id, entry.claim_id);
        let ids = cross_chain_ids(state.cross_chain);
        assert(ids[e] == entry.claim_id);
        lemma_position(ids, entry.claim_id);
    }
}

/// What every call does to a consistent state.
proof fn lemma_step<V: ClaimVerifier>(before: PalletView, call: Call<V>)
    requires
        before.consistent(),
    ensures
        before.apply(call).state.consistent(),
        before.apply(call).outcome is Err ==> before.apply(call).state == before,
        moves_forward(before, before.apply(call).state),
        !(call is RevokeClaim) ==> settles_only(before, before.apply(call).state),
{
    let after = before.apply(call).state;
    match call {
        Call::RegisterProduct {
            who,
            product_id,
            name,
            description,
            origin_country,
            hs_code,
            manufacture_date,
            metadata,
            owner_did,
            now,
        } => {
            lemma_register_product(
                before,
                who,
                product_id,
                name,
                description,
                origin_country,
                hs_code,
                manufacture_date,
                metadata,
                owner_did,
                now,
            );
        },
        Call::Submit { who, product_id, claim, claim_id, para_id, now, sent, reserved } => {
            lemma_submit(before, who, product_id, claim, claim_id, para_id, now, sent, reserved);
        },
        Call::VerifyClaim { who, product_id, claim_id, approved, reason, now } => {
            lemma_verify_claim(before, who, product_id, claim_id, approved, reason, now);
        },
        Call::RevokeClaim { who, product_id, claim_id, reason } => {
            lemma_revoke_claim(before, who, product_id, claim_id, reason);
        },
        Call::UpdateVerificationFee { who, claim_type, new_fee } => {
            lemma_update_verification_fee(before, who, claim_type, new_fee);
        },
        Call::SetVerifierAuthorization { who, verifier, authorized } => {
            lemma_set_verifier_authorization(before, who, verifier, authorized);
        },
        Call::UpdateProductInfo { who, product_id, name, description, metadata } => {
            lemma_update_product_info(before, who, product_id, name, description, metadata);
        },
        Call::DeactivateProduct { who, product_id } => {
            lemma_deactivate_product(before, who, product_id);
        },
        Call::HandleCrossChainMessage { para_id, message, now } => {
            lemma_handle_cross_chain_message(before, para_id, message, now);
        },
        Call::Tick { verifier, now } => {
            lemma_tick(before, verifier, now);
        },
    }
    if !(call is RevokeClaim) {
        lemma_settling_moves_forward(before, after);
    }
}

/// A sweep over the local entries removes no more entries than it
/// examines, hands the host no more than three effects for each, and costs
/// no more than 10 000 of computation time for each.
proof fn lemma_sweep_pending_bounded<V: ClaimVerifier>(
    s: PalletView,
    verifier: V,
    now: BlockNumber,
    at: int,
    budget: nat,
)
    ensures
        s.sweep_pending(verifier, now, at, budget).effects.len() <= 3 * s.sweep_pending(
            verifier,
            now,
            at,
            budget,
        ).examined,
        s.pending.len() <= s.sweep_pending(verifier, now, at, budget).state.pending.len()
            + s.sweep_pending(verifier, now, at, budget).examined,
        s.sweep_pending(verifier, now, at, budget).state.cross_chain == s.cross_chain,
        s.sweep_pending(verifier, now, at, budget).weight.ref_time <= 10_000 * s.sweep_pending(
            verifier,
            now,
            at,
            budget,
        ).examined,
        s.sweep_pending(verifier, now, at, budget).weight.proof_size == 0,
    decreases budget,
{
    if budget == 0 || at < 0 || at >= s.pending.len() {
    } else {
        let first = s.examine_pending(verifier, now, at);
        let next = if first.kept {
            at + 1
        } else {
            at
        };
        lemma_sweep_pending_bounded(first.state, verifier, now, next, (budget - 1) as nat);
    }
}

/// A sweep over the cross-chain entries removes no more entries than it
/// examines, hands the host no more than three effects for each, and costs
/// no more than 5 000 of computation time for each.
proof fn lemma_sweep_cross_chain_bounded(s: PalletView, now: BlockNumber, at: int, budget: nat)
    ensures
        s.sweep_cross_chain(now, at, budget).effects.len() <= 3 * s.sweep_cross_chain(
            now,
            at,
            budget,
        ).examined,
        s.cross_chain.len() <= s.sweep_cross_chain(now, at, budget).state.cross_chain.len()
            + s.sweep_cross_chain(now, at, budget).examined,
        s.sweep_cross_chain(now, at, budget).state.pending == s.pending,
        s.sweep_cross_chain(now, at, budget).weight.ref_time <= 5_000 * s.sweep_cross_chain(
            now,
            at,
            budget,
        ).examined,
        s.sweep_cross_chain(now, at, budget).weight.proof_size == 0,
    decreases budget,
{
    if budget == 0 || at < 0 || at >= s.cross_chain.len() {
    } else {
        let first = s.examine_cross_chain(now, at);
        let next = if first.kept {
            at + 1
        } else {
            at
        };
        lemma_sweep_cross_chain_bounded(first.state, now, next, (budget - 1) as nat);
    }
}

} // verus!
