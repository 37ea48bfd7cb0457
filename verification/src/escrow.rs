//! Why what is held in escrow is always what was put in and not yet
//! released.
use crate::history::{
    approves_by_hand, escrow, held, pending_fee, release_of, released, reserved_for, transfer_of,
    transferred,
};
use crate::invariants::{lemma_examine_cross_chain, lemma_examine_pending, lemma_locate};
use crate::keys::{lemma_position, position, AccountId, BlockNumber};
use crate::model::{
    cross_chain_ids, effects_of, manual_effects, product_ids, reason_cross_chain_impossible,
    reason_impossible, response_effects, timeout_effects, verdict_effects, Call, PalletView,
    ProductRecordView,
};
use crate::runtime_integration::{ClaimVerifier, CrossChainMessageView, VerificationResultView};
use crate::types::{EffectView, VerificationStatusView, VerifiedClaimView};
use vstd::prelude::*;

verus! {

/// One more claim holds its own fee more.
pub proof fn lemma_held_push(claims: Seq<VerifiedClaimView>, claim: VerifiedClaimView)
    ensures
        held(claims.push(claim)) == held(claims) + pending_fee(claim),
{
    assert(claims.push(claim).drop_last() =~= claims);
}

/// A claim that is replaced holds its new fee for its old one.
pub proof fn lemma_held_update(claims: Seq<VerifiedClaimView>, c: int, claim: VerifiedClaimView)
    requires
        0 <= c < claims.len(),
    ensures
        held(claims.update(c, claim)) == held(claims) - pending_fee(claims[c]) + pending_fee(claim),
    decreases claims.len(),
{
    let updated = claims.update(c, claim);
    if c == claims.len() - 1 {
        assert(updated.drop_last() =~= claims.drop_last());
    } else {
        lemma_held_update(claims.drop_last(), c, claim);
        assert(updated.drop_last() =~= claims.drop_last().update(c, claim));
    }
}

/// One more product holds what its claims hold more.
pub proof fn lemma_escrow_push(records: Seq<ProductRecordView>, record: ProductRecordView)
    ensures
        escrow(records.push(record)) == escrow(records) + held(record.claims),
{
    assert(records.push(record).drop_last() =~= records);
}

/// A product that is replaced holds what its new claims hold for what its
/// old ones held.
pub proof fn lemma_escrow_update(records: Seq<ProductRecordView>, p: int, record: ProductRecordView)
    requires
        0 <= p < records.len(),
    ensures
        escrow(records.update(p, record)) == escrow(records) - held(records[p].claims) + held(
            record.claims,
        ),
    decreases records.len(),
{
    let updated = records.update(p, record);
    if p == records.len() - 1 {
        assert(updated.drop_last() =~= records.drop_last());
    } else {
        lemma_escrow_update(records.drop_last(), p, record);
        assert(updated.drop_last() =~= records.drop_last().update(p, record));
    }
}

/// One more effect releases and moves what it releases and moves more.
pub proof fn lemma_effects_push(effects: Seq<EffectView>, effect: EffectView)
    ensures
        released(effects.push(effect)) == released(effects) + release_of(effect),
        transferred(effects.push(effect)) == transferred(effects) + transfer_of(effect),
{
    assert(effects.push(effect).drop_last() =~= effects);
}

/// Two lists of effects release and move what each of them does.
pub proof fn lemma_effects_add(first: Seq<EffectView>, second: Seq<EffectView>)
    ensures
        released(first + second) == released(first) + released(second),
        transferred(first + second) == transferred(first) + transferred(second),
    decreases second.len(),
{
    if second.len() == 0 {
        assert(first + second =~= first);
    } else {
        lemma_effects_add(first, second.drop_last());
        assert((first + second).drop_last() =~= first + second.drop_last());
        assert((first + second).last() == second.last());
    }
}

/// A list of one effect and a list of two release and move what their
/// effects do.
pub proof fn lemma_effects_few(a: EffectView, b: EffectView)
    ensures
        released(Seq::<EffectView>::empty()) == 0,
        transferred(Seq::<EffectView>::empty()) == 0,
        released(seq![a]) == release_of(a),
        transferred(seq![a]) == transfer_of(a),
        released(seq![a, b]) == release_of(a) + release_of(b),
        transferred(seq![a, b]) == transfer_of(a) + transfer_of(b),
{
    lemma_effects_push(Seq::empty(), a);
    assert(Seq::<EffectView>::empty().push(a) =~= seq![a]);
    lemma_effects_push(seq![a], b);
    assert(seq![a].push(b) =~= seq![a, b]);
}

/// The effects of a verdict of the scheduler release the fee of the claim
/// and move nothing.
pub proof fn lemma_verdict_effects(
    product_id: Seq<u8>,
    claim: VerifiedClaimView,
    success: bool,
    reason: Option<Seq<u8>>,
)
    ensures
        released(verdict_effects(product_id, claim, success, reason)) == claim.fee,
        transferred(verdict_effects(product_id, claim, success, reason)) == 0,
{
    let origin = if success && claim.claim.claim_type is OriginCountry {
        seq![
            EffectView::Deposit(
                crate::types::EventView::OriginVerified { product_id, verified: true },
            ),
        ]
    } else {
        Seq::empty()
    };
    let rest = seq![
        EffectView::Unreserve { who: claim.submitter, amount: claim.fee },
        EffectView::Deposit(
            crate::types::EventView::ClaimVerified {
                product_id,
                claim_id: claim.claim_id,
                claim_type: claim.claim.claim_type,
                success,
                reason,
            },
        ),
    ];
    lemma_effects_few(rest[0], rest[1]);
    assert(rest =~= seq![rest[0], rest[1]]);
    if origin.len() > 0 {
        lemma_effects_few(origin[0], origin[0]);
        assert(origin =~= seq![origin[0]]);
    }
    lemma_effects_add(origin, rest);
}

/// The effects of a timeout release the fee of the claim and move nothing.
pub proof fn lemma_timeout_effects(claim: VerifiedClaimView)
    ensures
        released(timeout_effects(claim)) == claim.fee,
        transferred(timeout_effects(claim)) == 0,
{
    let effects = timeout_effects(claim);
    lemma_effects_few(effects[0], effects[1]);
    assert(effects =~= seq![effects[0], effects[1]]);
}

/// The effects of a counterparty's verdict release the fee of the claim
/// and move nothing.
pub proof fn lemma_response_effects(
    product_id: Seq<u8>,
    claim: VerifiedClaimView,
    from_para_id: u32,
    success: bool,
)
    ensures
        released(response_effects(product_id, claim, from_para_id, success)) == claim.fee,
        transferred(response_effects(product_id, claim, from_para_id, success)) == 0,
{
    let origin = if success && claim.claim.claim_type is OriginCountry {
        seq![
            EffectView::Deposit(
                crate::types::EventView::OriginVerified { product_id, verified: true },
            ),
        ]
    } else {
        Seq::empty()
    };
    let rest = seq![
        EffectView::Deposit(
            crate::types::EventView::CrossChainVerificationReceived {
                from_para_id,
                claim_id: claim.claim_id,
                success,
            },
        ),
        EffectView::Unreserve { who: claim.submitter, amount: claim.fee },
    ];
    lemma_effects_few(rest[0], rest[1]);
    assert(rest =~= seq![rest[0], rest[1]]);
    if origin.len() > 0 {
        lemma_effects_few(origin[0], origin[0]);
        assert(origin =~= seq![origin[0]]);
    }
    lemma_effects_add(origin, rest);
}

/// The effects of a verdict by hand release the fee of the claim; an
/// approval moves the whole fee on, a rejection moves nothing.
pub proof fn lemma_manual_effects(
    product_id: Seq<u8>,
    claim: VerifiedClaimView,
    approved: bool,
    reason: Option<Seq<u8>>,
    resolver: AccountId,
    admin: AccountId,
)
    ensures
        released(manual_effects(product_id, claim, approved, reason, resolver, admin))
            == claim.fee,
        transferred(manual_effects(product_id, claim, approved, reason, resolver, admin)) == if approved {
            claim.fee as int
        } else {
            0
        },
{
    let origin = if approved && claim.claim.claim_type is OriginCountry {
        seq![
            EffectView::Deposit(
                crate::types::EventView::OriginVerified { product_id, verified: true },
            ),
        ]
    } else {
        Seq::empty()
    };
    let release = seq![EffectView::Unreserve { who: claim.submitter, amount: claim.fee }];
    let shares = if approved {
        seq![
            EffectView::Transfer {
                from: claim.submitter,
                to: resolver,
                amount: (claim.fee / 2) as u64,
            },
            EffectView::Transfer {
                from: claim.submitter,
                to: admin,
                amount: (claim.fee - claim.fee / 2) as u64,
            },
        ]
    } else {
        Seq::empty()
    };
    let verified = seq![
        EffectView::Deposit(
            crate::types::EventView::ClaimVerified {
                product_id,
                claim_id: claim.claim_id,
                claim_type: claim.claim.claim_type,
                success: approved,
                reason,
            },
        ),
    ];
    if origin.len() > 0 {
        lemma_effects_few(origin[0], origin[0]);
        assert(origin =~= seq![origin[0]]);
    }
    lemma_effects_few(release[0], release[0]);
    assert(release =~= seq![release[0]]);
    if approved {
        lemma_effects_few(shares[0], shares[1]);
        assert(shares =~= seq![shares[0], shares[1]]);
    }
    lemma_effects_few(verified[0], verified[0]);
    assert(verified =~= seq![verified[0]]);
    lemma_effects_add(origin, release);
    lemma_effects_add(origin + release, shares);
    lemma_effects_add(origin + release + shares, verified);
}

/// Settling a pending claim takes its fee out of escrow.
pub proof fn lemma_settle_escrow(
    s: PalletView,
    p: int,
    c: int,
    status: VerificationStatusView,
    verifier: Option<AccountId>,
    verified_at: Option<BlockNumber>,
)
    requires
        0 <= p < s.records.len(),
        0 <= c < s.records[p].claims.len(),
        s.records[p].claims[c].status is Pending,
        !(status is Pending),
    ensures
        escrow(s.settle(p, c, status, verifier, verified_at).records) == escrow(s.records)
            - s.records[p].claims[c].fee,
{
    let t = s.settle(p, c, status, verifier, verified_at);
    let claim = s.records[p].claims[c];
    let settled = VerifiedClaimView { status, verifier, verified_at, ..claim };
    assert(t.records[p].claims == s.records[p].claims.update(c, settled));
    assert(t.records =~= s.records.update(p, t.records[p]));
    lemma_held_update(s.records[p].claims, c, settled);
    lemma_escrow_update(s.records, p, t.records[p]);
}

/// What examining a local entry releases is what leaves escrow, and it
/// moves nothing.
pub proof fn lemma_examine_pending_escrow<V: ClaimVerifier>(
    s: PalletView,
    verifier: V,
    now: BlockNumber,
    at: int,
)
    requires
        s.consistent(),
        0 <= at < s.pending.len(),
    ensures
        escrow(s.examine_pending(verifier, now, at).state.records) + released(
            s.examine_pending(verifier, now, at).effects,
        ) == escrow(s.records),
        transferred(s.examine_pending(verifier, now, at).effects) == 0,
{
    let entry = s.pending[at];
    assert(s.awaits(entry.product_id, entry.claim_id, false));
    lemma_locate(s, entry.product_id, entry.claim_id);
    let (p, c) = s.locate(entry.product_id, entry.claim_id)->0;
    let claim = s.records[p].claims[c];
    if now >= entry.deadline {
        lemma_settle_escrow(
            s,
            p,
            c,
            VerificationStatusView::TimedOut,
            claim.verifier,
            claim.verified_at,
        );
        lemma_timeout_effects(claim);
    } else {
        match verifier.verdict(claim.claim) {
            VerificationResultView::Success => {
                lemma_settle_escrow(s, p, c, VerificationStatusView::Approved, None, Some(now));
                lemma_verdict_effects(entry.product_id, claim, true, None);
            },
            VerificationResultView::Failure(reason) => {
                lemma_settle_escrow(
                    s,
                    p,
                    c,
                    VerificationStatusView::Rejected(reason),
                    None,
                    Some(now),
                );
                lemma_verdict_effects(entry.product_id, claim, false, Some(reason));
            },
            VerificationResultView::Pending => {},
            VerificationResultView::Impossible => {
                lemma_settle_escrow(
                    s,
                    p,
                    c,
                    VerificationStatusView::Failed(reason_impossible()),
                    None,
                    Some(now),
                );
                lemma_verdict_effects(entry.product_id, claim, false, Some(reason_impossible()));
            },
        }
    }
}

/// What examining a cross-chain entry releases is what leaves escrow, and
/// it moves nothing.
pub proof fn lemma_examine_cross_chain_escrow(s: PalletView, now: BlockNumber, at: int)
    requires
        s.consistent(),
        0 <= at < s.cross_chain.len(),
    ensures
        escrow(s.examine_cross_chain(now, at).state.records) + released(
            s.examine_cross_chain(now, at).effects,
        ) == escrow(s.records),
        transferred(s.examine_cross_chain(now, at).effects) == 0,
{
    let entry = s.cross_chain[at];
    assert(s.awaits(entry.product_id, entry.claim_id, true));
    lemma_locate(s, entry.product_id, entry.claim_id);
    let (p, c) = s.locate(entry.product_id, entry.claim_id)->0;
    let claim = s.records[p].claims[c];
    if now >= entry.deadline {
        lemma_settle_escrow(
            s,
            p,
            c,
            VerificationStatusView::TimedOut,
            claim.verifier,
            claim.verified_at,
        );
        lemma_timeout_effects(claim);
    }
}

/// What a sweep over the local entries releases is what leaves escrow, and
/// it moves nothing.
pub proof fn lemma_sweep_pending_escrow<V: ClaimVerifier>(
    s: PalletView,
    verifier: V,
    now: BlockNumber,
    at: int,
    budget: nat,
)
    requires
        s.consistent(),
    ensures
        escrow(s.sweep_pending(verifier, now, at, budget).state.records) + released(
            s.sweep_pending(verifier, now, at, budget).effects,
        ) == escrow(s.records),
        transferred(s.sweep_pending(verifier, now, at, budget).effects) == 0,
    decreases budget,
{
    if budget == 0 || at < 0 || at >= s.pending.len() {
    } else {
        let first = s.examine_pending(verifier, now, at);
        lemma_examine_pending(s, verifier, now, at);
        lemma_examine_pending_escrow(s, verifier, now, at);
        let next = if first.kept {
            at + 1
        } else {
            at
        };
        let rest = first.state.sweep_pending(verifier, now, next, (budget - 1) as nat);
        lemma_sweep_pending_escrow(first.state, verifier, now, next, (budget - 1) as nat);
        lemma_effects_add(first.effects, rest.effects);
    }
}

/// What a sweep over the cross-chain entries releases is what leaves
/// escrow, and it moves nothing.
pub proof fn lemma_sweep_cross_chain_escrow(s: PalletView, now: BlockNumber, at: int, budget: nat)
    requires
        s.consistent(),
    ensures
        escrow(s.sweep_cross_chain(now, at, budget).state.records) + released(
            s.sweep_cross_chain(now, at, budget).effects,
        ) == escrow(s.records),
        transferred(s.sweep_cross_chain(now, at, budget).effects) == 0,
    decreases budget,
{
    if budget == 0 || at < 0 || at >= s.cross_chain.len() {
    } else {
        let first = s.examine_cross_chain(now, at);
        lemma_examine_cross_chain(s, now, at);
        lemma_examine_cross_chain_escrow(s, now, at);
        let next = if first.kept {
            at + 1
        } else {
            at
        };
        let rest = first.state.sweep_cross_chain(now, next, (budget - 1) as nat);
        lemma_sweep_cross_chain_escrow(first.state, now, next, (budget - 1) as nat);
        lemma_effects_add(first.effects, rest.effects);
    }
}

/// What a call releases and what it leaves in escrow is what was in escrow
/// and what the host put in for the call; and a call moves on the fee it
/// releases where it approves a claim by hand, and nothing otherwise.
pub proof fn lemma_step_escrow<V: ClaimVerifier>(before: PalletView, call: Call<V>)
    requires
        before.consistent(),
    ensures
        escrow(before.apply(call).state.records) + released(effects_of(before.apply(call)))
            == escrow(before.records) + reserved_for(before, call),
        transferred(effects_of(before.apply(call))) == if approves_by_hand(before, call) {
            released(effects_of(before.apply(call)))
        } else {
            0
        },
{
    let step = before.apply(call);
    let after = step.state;
    let none = Seq::<EffectView>::empty();
    lemma_effects_few(EffectView::Unreserve { who: 0, amount: 0 }, EffectView::Unreserve { who: 0, amount: 0 });
    if step.outcome is Ok {
        lemma_granted_step_escrow(before, call);
    }
}

/// The same of a call that is not refused.
proof fn lemma_granted_step_escrow<V: ClaimVerifier>(before: PalletView, call: Call<V>)
    requires
        before.consistent(),
        before.apply(call).outcome is Ok,
    ensures
        escrow(before.apply(call).state.records) + released(effects_of(before.apply(call)))
            == escrow(before.records) + reserved_for(before, call),
        transferred(effects_of(before.apply(call))) == if approves_by_hand(before, call) {
            released(effects_of(before.apply(call)))
        } else {
            0
        },
{
    let step = before.apply(call);
    let after = step.state;
    let effects = effects_of(step);
    match call {
        Call::RegisterProduct { .. } => {
            lemma_effects_few(effects[0], effects[0]);
            assert(effects =~= seq![effects[0]]);
            let record = after.records[before.records.len() as int];
            assert(after.records =~= before.records.push(record));
            lemma_escrow_push(before.records, record);
        },
        Call::Submit { product_id, .. } => {
            lemma_effects_few(effects[0], effects[0]);
            assert(effects =~= seq![effects[0]]);
            lemma_position(product_ids(before.records), product_id);
            let p = before.product_index(product_id)->0;
            let entered = after.records[p].claims[before.records[p].claims.len() as int];
            assert(after.records[p].claims =~= before.records[p].claims.push(entered));
            assert(after.records =~= before.records.update(p, after.records[p]));
            lemma_held_push(before.records[p].claims, entered);
            lemma_escrow_update(before.records, p, after.records[p]);
        },
        Call::VerifyClaim { who, product_id, claim_id, approved, reason, now } => {
            lemma_locate(before, product_id, claim_id);
            let p = before.product_index(product_id)->0;
            let c = before.claim_index(p, claim_id)->0;
            let status = if approved {
                VerificationStatusView::Approved
            } else {
                VerificationStatusView::Rejected(
                    match reason {
                        Some(bytes) => bytes,
                        None => Seq::empty(),
                    },
                )
            };
            lemma_settle_escrow(before, p, c, status, Some(who), Some(now));
            lemma_manual_effects(
                product_id,
                before.records[p].claims[c],
                approved,
                reason,
                who,
                before.config.admin_account,
            );
        },
        Call::RevokeClaim { product_id, claim_id, reason, .. } => {
            lemma_locate(before, product_id, claim_id);
            let p = before.product_index(product_id)->0;
            let c = before.claim_index(p, claim_id)->0;
            let claim = before.records[p].claims[c];
            let revoked = VerifiedClaimView {
                status: VerificationStatusView::Revoked(reason),
                ..claim
            };
            assert(after.records[p].claims == before.records[p].claims.update(c, revoked));
            assert(after.records =~= before.records.update(p, after.records[p]));
            lemma_held_update(before.records[p].claims, c, revoked);
            lemma_escrow_update(before.records, p, after.records[p]);
            if claim.claim.claim_type is OriginCountry {
                lemma_effects_few(effects[0], effects[1]);
                assert(effects =~= seq![effects[0], effects[1]]);
            } else {
                lemma_effects_few(effects[0], effects[0]);
                assert(effects =~= seq![effects[0]]);
            }
        },
        Call::UpdateVerificationFee { .. } => {
            lemma_effects_few(effects[0], effects[0]);
            assert(effects =~= seq![effects[0]]);
        },
        Call::SetVerifierAuthorization { .. } => {
            lemma_effects_few(effects[0], effects[0]);
            assert(effects =~= seq![effects[0]]);
        },
        Call::UpdateProductInfo { product_id, .. } => {
            lemma_effects_few(effects[0], effects[0]);
            assert(effects =~= seq![effects[0]]);
            lemma_position(product_ids(before.records), product_id);
            let p = before.product_index(product_id)->0;
            assert(after.records =~= before.records.update(p, after.records[p]));
            lemma_escrow_update(before.records, p, after.records[p]);
        },
        Call::DeactivateProduct { product_id, .. } => {
            lemma_effects_few(effects[0], effects[0]);
            assert(effects =~= seq![effects[0]]);
            lemma_position(product_ids(before.records), product_id);
            let p = before.product_index(product_id)->0;
            assert(after.records =~= before.records.update(p, after.records[p]));
            lemma_escrow_update(before.records, p, after.records[p]);
        },
        Call::HandleCrossChainMessage { para_id, message, now } => {
            lemma_effects_few(
                EffectView::Unreserve { who: 0, amount: 0 },
                EffectView::Unreserve { who: 0, amount: 0 },
            );
            if let CrossChainMessageView::VerificationResponse { claim_id, result } = message {
                lemma_position(cross_chain_ids(before.cross_chain), claim_id);
                if let Some(at) = position(cross_chain_ids(before.cross_chain), claim_id) {
                    let entry = before.cross_chain[at];
                    assert(before.awaits(entry.product_id, entry.claim_id, true));
                    lemma_locate(before, entry.product_id, claim_id);
                    let (p, c) = before.locate(entry.product_id, claim_id)->0;
                    let claim = before.records[p].claims[c];
                    let taken = PalletView {
                        cross_chain: before.cross_chain.remove(at),
                        ..before
                    };
                    match result {
                        VerificationResultView::Success => {
                            lemma_settle_escrow(
                                taken,
                                p,
                                c,
                                VerificationStatusView::Approved,
                                claim.verifier,
                                Some(now),
                            );
                            lemma_response_effects(entry.product_id, claim, para_id, true);
                        },
                        VerificationResultView::Failure(reason) => {
                            lemma_settle_escrow(
                                taken,
                                p,
                                c,
                                VerificationStatusView::Rejected(reason),
                                claim.verifier,
                                Some(now),
                            );
                            lemma_response_effects(entry.product_id, claim, para_id, false);
                        },
                        VerificationResultView::Impossible => {
                            lemma_settle_escrow(
                                taken,
                                p,
                                c,
                                VerificationStatusView::Failed(reason_cross_chain_impossible()),
                                claim.verifier,
                                Some(now),
                            );
                            lemma_response_effects(entry.product_id, claim, para_id, false);
                        },
                        VerificationResultView::Pending => {},
                    }
                }
            }
        },
        Call::Tick { verifier, now } => {
            let limit = before.config.verification_limit as nat;
            let local = before.sweep_pending(verifier, now, 0, limit);
            crate::invariants::lemma_sweep_pending(before, verifier, now, 0, limit);
            lemma_sweep_pending_escrow(before, verifier, now, 0, limit);
            let left = (before.config.verification_limit - local.examined) as nat;
            let remote = local.state.sweep_cross_chain(now, 0, left);
            lemma_sweep_cross_chain_escrow(local.state, now, 0, left);
            lemma_effects_add(local.effects, remote.effects);
        },
    }
}

} // verus!
