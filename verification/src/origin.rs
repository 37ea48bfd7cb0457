//! Why the origin flag of a product always agrees with the product's
//! claims.
use crate::history::{
    additions_fresh, claim_kept, origin_approved, origin_flag_follows, origin_flag_sound,
    origin_flags_follow, origin_revoked, same_shape, moves_forward, settles_only,
};
use crate::invariants::{
    lemma_examine_cross_chain, lemma_examine_pending, lemma_locate, lemma_settle_differs_at,
    lemma_sweep_cross_chain, lemma_sweep_pending,
};
use crate::keys::{lemma_position, position, AccountId, BlockNumber};
use crate::model::{
    cross_chain_ids, product_ids, reason_cross_chain_impossible, reason_impossible, Call,
    PalletView,
};
use crate::runtime_integration::{ClaimVerifier, CrossChainMessageView, VerificationResultView};
use crate::types::VerificationStatusView;
use vstd::prelude::*;

verus! {

/// Where no claim of the earlier state changed its status and no flag
/// changed, the flags follow.
pub proof fn lemma_flags_unchanged(s: PalletView, t: PalletView)
    requires
        s.records.len() <= t.records.len(),
        forall|p: int|
            0 <= p < s.records.len() ==> {
                &&& (#[trigger] t.records[p]).product.origin_verified
                    == s.records[p].product.origin_verified
                &&& s.records[p].claims.len() <= t.records[p].claims.len()
            },
        forall|p: int, c: int|
            0 <= p < s.records.len() && 0 <= c < s.records[p].claims.len() ==> (
            #[trigger] t.records[p].claims[c]).status == s.records[p].claims[c].status,
    ensures
        origin_flags_follow(s, t),
{
    assert forall|p: int| 0 <= p < s.records.len() && p < t.records.len() implies origin_flag_follows(
        s.records[p],
        #[trigger] t.records[p],
    ) by {
        assert forall|c: int| 0 <= c < s.records[p].claims.len() implies t.records[p].claims[c].status
            == s.records[p].claims[c].status by {
        }
        assert(!origin_approved(s.records[p], t.records[p]));
        assert(!origin_revoked(s.records[p], t.records[p]));
    }
}

/// Where one claim changed its status and the flag of its product is what
/// that change makes it, the flags follow.
pub proof fn lemma_flags_one_claim(s: PalletView, t: PalletView, p: int, c: int)
    requires
        same_shape(s, t),
        0 <= p < s.records.len(),
        0 <= c < s.records[p].claims.len(),
        forall|q: int, d: int|
            0 <= q < s.records.len() && 0 <= d < s.records[q].claims.len() && !(q == p && d == c)
                ==> (#[trigger] t.records[q].claims[d]).status == s.records[q].claims[d].status,
        forall|q: int|
            0 <= q < s.records.len() && q != p ==> (#[trigger] t.records[q]).product.origin_verified
                == s.records[q].product.origin_verified,
        t.records[p].product.origin_verified == if s.records[p].claims[c].claim.claim_type
            is OriginCountry && s.records[p].claims[c].status is Approved
            && t.records[p].claims[c].status is Revoked {
            false
        } else if s.records[p].claims[c].claim.claim_type is OriginCountry
            && s.records[p].claims[c].status is Pending && t.records[p].claims[c].status
            is Approved {
            true
        } else {
            s.records[p].product.origin_verified
        },
    ensures
        origin_flags_follow(s, t),
{
    assert forall|q: int| 0 <= q < s.records.len() && q < t.records.len() implies origin_flag_follows(
        s.records[q],
        #[trigger] t.records[q],
    ) by {
        let before = s.records[q];
        let after = t.records[q];
        assert forall|d: int| 0 <= d < before.claims.len() && !(q == p && d == c) implies after.claims[d].status
            == before.claims[d].status by {
        }
        if q == p {
            let claim = before.claims[c];
            if claim.claim.claim_type is OriginCountry && claim.status is Approved
                && after.claims[c].status is Revoked {
                assert(origin_revoked(before, after));
            } else if claim.claim.claim_type is OriginCountry && claim.status is Pending
                && after.claims[c].status is Approved {
                assert(origin_approved(before, after));
                assert(!origin_revoked(before, after));
            } else {
                assert(!origin_approved(before, after));
                assert(!origin_revoked(before, after));
            }
        } else {
            assert(!origin_approved(before, after));
            assert(!origin_revoked(before, after));
        }
    }
}

/// Settling a pending claim makes the flags follow, and adds nothing.
pub proof fn lemma_settle_flags(
    s: PalletView,
    p: int,
    c: int,
    status: VerificationStatusView,
    verifier: Option<AccountId>,
    verified_at: Option<BlockNumber>,
    t: PalletView,
)
    requires
        0 <= p < s.records.len(),
        0 <= c < s.records[p].claims.len(),
        s.records[p].claims[c].status is Pending,
        status.is_settlement(),
        t.records == s.settle(p, c, status, verifier, verified_at).records,
    ensures
        origin_flags_follow(s, t),
        same_shape(s, t),
{
    lemma_settle_differs_at(s, p, c, status, verifier, verified_at);
    let settled = s.settle(p, c, status, verifier, verified_at);
    assert forall|q: int, d: int|
        0 <= q < s.records.len() && 0 <= d < s.records[q].claims.len() && !(q == p && d
            == c) implies (#[trigger] t.records[q].claims[d]).status
        == s.records[q].claims[d].status by {
        assert(settled.records[q].claims[d] == s.records[q].claims[d]);
    }
    lemma_flags_one_claim(s, t, p, c);
}

/// Where nothing was revoked and nothing added, flags that follow twice
/// follow from the first state to the last.
pub proof fn lemma_flags_on(a: PalletView, b: PalletView, c: PalletView)
    requires
        settles_only(a, b),
        settles_only(b, c),
        same_shape(a, b),
        same_shape(b, c),
        origin_flags_follow(a, b),
        origin_flags_follow(b, c),
    ensures
        origin_flags_follow(a, c),
        same_shape(a, c),
{
    assert forall|p: int| 0 <= p < a.records.len() implies (#[trigger] c.records[p]).claims.len()
        == a.records[p].claims.len() by {
        assert(b.records[p].claims.len() == a.records[p].claims.len());
    }
    assert forall|p: int| 0 <= p < a.records.len() && p < c.records.len() implies origin_flag_follows(
        a.records[p],
        #[trigger] c.records[p],
    ) by {
        let x = a.records[p];
        let y = b.records[p];
        let z = c.records[p];
        assert(origin_flag_follows(x, y));
        assert(origin_flag_follows(y, z));
        assert(y.claims.len() == x.claims.len());
        assert forall|d: int| 0 <= d < x.claims.len() implies {
            &&& x.claims[d].status.may_settle_as(#[trigger] y.claims[d].status)
            &&& y.claims[d].status.may_settle_as(z.claims[d].status)
            &&& claim_kept(x.claims[d], y.claims[d])
        } by {
            assert(x.claims[d].status.may_settle_as(b.records[p].claims[d].status));
            assert(y.claims[d].status.may_settle_as(c.records[p].claims[d].status));
            assert(claim_kept(a.records[p].claims[d], b.records[p].claims[d]));
        }
        assert(!origin_revoked(x, y)) by {
            if origin_revoked(x, y) {
                let d = choose|d: int|
                    0 <= d < x.claims.len() && d < y.claims.len() && (
                    #[trigger] x.claims[d]).claim.claim_type is OriginCountry
                        && x.claims[d].status is Approved && y.claims[d].status is Revoked;
                assert(x.claims[d].status.may_settle_as(y.claims[d].status));
            }
        }
        assert(!origin_revoked(y, z)) by {
            if origin_revoked(y, z) {
                let d = choose|d: int|
                    0 <= d < y.claims.len() && d < z.claims.len() && (
                    #[trigger] y.claims[d]).claim.claim_type is OriginCountry
                        && y.claims[d].status is Approved && z.claims[d].status is Revoked;
                assert(y.claims[d].status.may_settle_as(z.claims[d].status));
            }
        }
        assert(!origin_revoked(x, z)) by {
            if origin_revoked(x, z) {
                let d = choose|d: int|
                    0 <= d < x.claims.len() && d < z.claims.len() && (
                    #[trigger] x.claims[d]).claim.claim_type is OriginCountry
                        && x.claims[d].status is Approved && z.claims[d].status is Revoked;
                assert(x.claims[d].status.may_settle_as(y.claims[d].status));
                assert(y.claims[d].status.may_settle_as(z.claims[d].status));
            }
        }
        if origin_approved(x, z) {
            let d = choose|d: int|
                0 <= d < x.claims.len() && d < z.claims.len() && (
                #[trigger] x.claims[d]).claim.claim_type is OriginCountry
                    && x.claims[d].status is Pending && z.claims[d].status is Approved;
            assert(x.claims[d].status.may_settle_as(y.claims[d].status));
            assert(y.claims[d].status.may_settle_as(z.claims[d].status));
            if y.claims[d].status is Pending {
                assert(claim_kept(x.claims[d], y.claims[d]));
                assert(y.claims[d].claim.claim_type is OriginCountry);
                assert(origin_approved(y, z));
            } else {
                assert(origin_approved(x, y));
            }
        } else {
            if origin_approved(x, y) {
                let d = choose|d: int|
                    0 <= d < x.claims.len() && d < y.claims.len() && (
                    #[trigger] x.claims[d]).claim.claim_type is OriginCountry
                        && x.claims[d].status is Pending && y.claims[d].status is Approved;
                assert(y.claims[d].status.may_settle_as(z.claims[d].status));
                assert(false);
            }
            if origin_approved(y, z) {
                let d = choose|d: int|
                    0 <= d < y.claims.len() && d < z.claims.len() && (
                    #[trigger] y.claims[d]).claim.claim_type is OriginCountry
                        && y.claims[d].status is Pending && z.claims[d].status is Approved;
                assert(x.claims[d].status.may_settle_as(y.claims[d].status));
                assert(claim_kept(x.claims[d], y.claims[d]));
                assert(x.claims[d].claim.claim_type is OriginCountry);
                assert(false);
            }
        }
    }
}

/// Examining a local entry makes the flags follow, and adds nothing.
pub proof fn lemma_examine_pending_flags<V: ClaimVerifier>(
    s: PalletView,
    verifier: V,
    now: BlockNumber,
    at: int,
)
    requires
        s.consistent(),
        0 <= at < s.pending.len(),
    ensures
        origin_flags_follow(s, s.examine_pending(verifier, now, at).state),
        same_shape(s, s.examine_pending(verifier, now, at).state),
{
    let entry = s.pending[at];
    assert(s.awaits(entry.product_id, entry.claim_id, false));
    lemma_locate(s, entry.product_id, entry.claim_id);
    let (p, c) = s.locate(entry.product_id, entry.claim_id)->0;
    let claim = s.records[p].claims[c];
    let t = s.examine_pending(verifier, now, at).state;
    if now >= entry.deadline {
        lemma_settle_flags(
            s,
            p,
            c,
            VerificationStatusView::TimedOut,
            claim.verifier,
            claim.verified_at,
            t,
        );
    } else {
        match verifier.verdict(claim.claim) {
            VerificationResultView::Success => {
                lemma_settle_flags(s, p, c, VerificationStatusView::Approved, None, Some(now), t);
            },
            VerificationResultView::Failure(reason) => {
                lemma_settle_flags(
                    s,
                    p,
                    c,
                    VerificationStatusView::Rejected(reason),
                    None,
                    Some(now),
                    t,
                );
            },
            VerificationResultView::Pending => {
                lemma_flags_unchanged(s, t);
            },
            VerificationResultView::Impossible => {
                lemma_settle_flags(
                    s,
                    p,
                    c,
                    VerificationStatusView::Failed(reason_impossible()),
                    None,
                    Some(now),
                    t,
                );
            },
        }
    }
}

/// Examining a cross-chain entry makes the flags follow, and adds nothing.
pub proof fn lemma_examine_cross_chain_flags(s: PalletView, now: BlockNumber, at: int)
    requires
        s.consistent(),
        0 <= at < s.cross_chain.len(),
    ensures
        origin_flags_follow(s, s.examine_cross_chain(now, at).state),
        same_shape(s, s.examine_cross_chain(now, at).state),
{
    let entry = s.cross_chain[at];
    assert(s.awaits(entry.product_id, entry.claim_id, true));
    lemma_locate(s, entry.product_id, entry.claim_id);
    let (p, c) = s.locate(entry.product_id, entry.claim_id)->0;
    let claim = s.records[p].claims[c];
    let t = s.examine_cross_chain(now, at).state;
    if now >= entry.deadline {
        lemma_settle_flags(
            s,
            p,
            c,
            VerificationStatusView::TimedOut,
            claim.verifier,
            claim.verified_at,
            t,
        );
    } else {
        lemma_flags_unchanged(s, t);
    }
}

/// A sweep over the local entries makes the flags follow, and adds
/// nothing.
pub proof fn lemma_sweep_pending_flags<V: ClaimVerifier>(
    s: PalletView,
    verifier: V,
    now: BlockNumber,
    at: int,
    budget: nat,
)
    requires
        s.consistent(),
    ensures
        origin_flags_follow(s, s.sweep_pending(verifier, now, at, budget).state),
        same_shape(s, s.sweep_pending(verifier, now, at, budget).state),
    decreases budget,
{
    if budget == 0 || at < 0 || at >= s.pending.len() {
        lemma_flags_unchanged(s, s);
    } else {
        let first = s.examine_pending(verifier, now, at);
        lemma_examine_pending(s, verifier, now, at);
        lemma_examine_pending_flags(s, verifier, now, at);
        let next = if first.kept {
            at + 1
        } else {
            at
        };
        let rest = first.state.sweep_pending(verifier, now, next, (budget - 1) as nat);
        lemma_sweep_pending(first.state, verifier, now, next, (budget - 1) as nat);
        lemma_sweep_pending_flags(first.state, verifier, now, next, (budget - 1) as nat);
        lemma_flags_on(s, first.state, rest.state);
    }
}

/// A sweep over the cross-chain entries makes the flags follow, and adds
/// nothing.
pub proof fn lemma_sweep_cross_chain_flags(s: PalletView, now: BlockNumber, at: int, budget: nat)
    requires
        s.consistent(),
    ensures
        origin_flags_follow(s, s.sweep_cross_chain(now, at, budget).state),
        same_shape(s, s.sweep_cross_chain(now, at, budget).state),
    decreases budget,
{
    if budget == 0 || at < 0 || at >= s.cross_chain.len() {
        lemma_flags_unchanged(s, s);
    } else {
        let first = s.examine_cross_chain(now, at);
        lemma_examine_cross_chain(s, now, at);
        lemma_examine_cross_chain_flags(s, now, at);
        let next = if first.kept {
            at + 1
        } else {
            at
        };
        let rest = first.state.sweep_cross_chain(now, next, (budget - 1) as nat);
        lemma_sweep_cross_chain(first.state, now, next, (budget - 1) as nat);
        lemma_sweep_cross_chain_flags(first.state, now, next, (budget - 1) as nat);
        lemma_flags_on(s, first.state, rest.state);
    }
}

/// Every call makes the flags follow, and what it adds is fresh.
pub proof fn lemma_step_flags<V: ClaimVerifier>(before: PalletView, call: Call<V>)
    requires
        before.consistent(),
    ensures
        origin_flags_follow(before, before.apply(call).state),
        additions_fresh(before, before.apply(call).state),
{
    let after = before.apply(call).state;
    if before.apply(call).outcome is Err {
        lemma_flags_unchanged(before, after);
    } else {
        lemma_granted_step_flags(before, call);
    }
}

/// Every call that is not refused makes the flags follow, and what it adds
/// is fresh.
proof fn lemma_granted_step_flags<V: ClaimVerifier>(before: PalletView, call: Call<V>)
    requires
        before.consistent(),
        before.apply(call).outcome is Ok,
    ensures
        origin_flags_follow(before, before.apply(call).state),
        additions_fresh(before, before.apply(call).state),
{
    let after = before.apply(call).state;
    match call {
        Call::RegisterProduct { .. } => {
            assert forall|p: int| 0 <= p < before.records.len() implies after.records[p]
                == before.records[p] by {
            }
            lemma_flags_unchanged(before, after);
        },
        Call::Submit { product_id, .. } => {
            lemma_position(product_ids(before.records), product_id);
            let at = before.product_index(product_id)->0;
            assert forall|p: int, c: int|
                0 <= p < before.records.len() && 0 <= c < before.records[p].claims.len() implies (
            #[trigger] after.records[p].claims[c]).status
                == before.records[p].claims[c].status by {
                if p != at {
                    assert(after.records[p] == before.records[p]);
                }
            }
            assert forall|p: int| 0 <= p < before.records.len() implies {
                &&& (#[trigger] after.records[p]).product.origin_verified
                    == before.records[p].product.origin_verified
                &&& before.records[p].claims.len() <= after.records[p].claims.len()
            } by {
                if p != at {
                    assert(after.records[p] == before.records[p]);
                }
            }
            lemma_flags_unchanged(before, after);
            assert forall|p: int, c: int|
                0 <= p < before.records.len() && p < after.records.len()
                    && before.records[p].claims.len() <= c
                    < after.records[p].claims.len() implies (
            #[trigger] after.records[p].claims[c]).status is Pending by {
                if p != at {
                    assert(after.records[p] == before.records[p]);
                }
            }
        },
        Call::VerifyClaim { who, product_id, claim_id, approved, reason, now } => {
            lemma_locate(before, product_id, claim_id);
            let p = before.product_index(product_id)->0;
            let c = before.claim_index(p, claim_id)->0;
            let status = if approved {
                VerificationStatusView::Approved
            } else {
                VerificationStatusView::Rejected(
                    match reason {
                        Some(bytes) => bytes,
                        None => Seq::empty(),
                    },
                )
            };
            lemma_settle_flags(before, p, c, status, Some(who), Some(now), after);
        },
        Call::RevokeClaim { product_id, claim_id, .. } => {
            lemma_locate(before, product_id, claim_id);
            let p = before.product_index(product_id)->0;
            let c = before.claim_index(p, claim_id)->0;
            assert forall|q: int, d: int|
                0 <= q < before.records.len() && 0 <= d < before.records[q].claims.len() && !(q
                    == p && d == c) implies (#[trigger] after.records[q].claims[d]).status
                == before.records[q].claims[d].status by {
            }
            lemma_flags_one_claim(before, after, p, c);
        },
        Call::UpdateVerificationFee { .. } => {
            lemma_flags_unchanged(before, after);
        },
        Call::SetVerifierAuthorization { .. } => {
            lemma_flags_unchanged(before, after);
        },
        Call::UpdateProductInfo { product_id, .. } => {
            lemma_position(product_ids(before.records), product_id);
            lemma_flags_unchanged(before, after);
        },
        Call::DeactivateProduct { product_id, .. } => {
            lemma_position(product_ids(before.records), product_id);
            lemma_flags_unchanged(before, after);
        },
        Call::HandleCrossChainMessage { para_id, message, now } => {
            lemma_flags_unchanged(before, before);
            if let CrossChainMessageView::VerificationResponse { claim_id, result } = message {
                lemma_position(cross_chain_ids(before.cross_chain), claim_id);
                if let Some(at) = position(cross_chain_ids(before.cross_chain), claim_id) {
                    let entry = before.cross_chain[at];
                    assert(before.awaits(entry.product_id, entry.claim_id, true));
                    lemma_locate(before, entry.product_id, claim_id);
                    let (p, c) = before.locate(entry.product_id, claim_id)->0;
                    let claim = before.records[p].claims[c];
                    match result {
                        VerificationResultView::Success => {
                            lemma_settle_flags(
                                before,
                                p,
                                c,
                                VerificationStatusView::Approved,
                                claim.verifier,
                                Some(now),
                                after,
                            );
                        },
                        VerificationResultView::Failure(reason) => {
                            lemma_settle_flags(
                                before,
                                p,
                                c,
                                VerificationStatusView::Rejected(reason),
                                claim.verifier,
                                Some(now),
                                after,
                            );
                        },
                        VerificationResultView::Impossible => {
                            lemma_settle_flags(
                                before,
                                p,
                                c,
                                VerificationStatusView::Failed(reason_cross_chain_impossible()),
                                claim.verifier,
                                Some(now),
                                after,
                            );
                        },
                        VerificationResultView::Pending => {
                            lemma_flags_unchanged(before, after);
                        },
                    }
                }
            }
        },
        Call::Tick { verifier, now } => {
            let limit = before.config.verification_limit as nat;
            let local = before.sweep_pending(verifier, now, 0, limit);
            lemma_sweep_pending(before, verifier, now, 0, limit);
            lemma_sweep_pending_flags(before, verifier, now, 0, limit);
            let left = (before.config.verification_limit - local.examined) as nat;
            lemma_sweep_cross_chain(local.state, now, 0, left);
            lemma_sweep_cross_chain_flags(local.state, now, 0, left);
            lemma_flags_on(before, local.state, after);
        },
    }
}

/// Where the flags were sound, follow, and what was added is fresh, the
/// flags are sound.
pub proof fn lemma_sound_step(s: PalletView, t: PalletView)
    requires
        forall|p: int| 0 <= p < s.records.len() ==> origin_flag_sound(#[trigger] s.records[p]),
        moves_forward(s, t),
        origin_flags_follow(s, t),
        additions_fresh(s, t),
    ensures
        forall|p: int| 0 <= p < t.records.len() ==> origin_flag_sound(#[trigger] t.records[p]),
{
    assert forall|p: int| 0 <= p < t.records.len() implies origin_flag_sound(#[trigger] t.records[p]) by {
        let after = t.records[p];
        if p < s.records.len() {
            let before = s.records[p];
            assert(origin_flag_sound(before));
            assert(origin_flag_follows(before, after));
            assert forall|c: int| 0 <= c < before.claims.len() implies {
                &&& before.claims[c].status.may_become(#[trigger] after.claims[c].status)
                &&& claim_kept(before.claims[c], after.claims[c])
            } by {
                assert(before.claims[c].status.may_become(t.records[p].claims[c].status));
                assert(claim_kept(s.records[p].claims[c], t.records[p].claims[c]));
            }
            assert forall|c: int| before.claims.len() <= c < after.claims.len() implies (
            #[trigger] after.claims[c]).status is Pending by {
                assert(t.records[p].claims[c].status is Pending);
            }
            if after.product.origin_verified {
                if origin_approved(before, after) {
                    let c = choose|c: int|
                        0 <= c < before.claims.len() && c < after.claims.len() && (
                        #[trigger] before.claims[c]).claim.claim_type is OriginCountry
                            && before.claims[c].status is Pending && after.claims[c].status
                            is Approved;
                    assert(claim_kept(before.claims[c], after.claims[c]));
                    assert(after.claims[c].claim.claim_type is OriginCountry);
                } else {
                    assert(!origin_revoked(before, after));
                    assert(before.product.origin_verified);
                    let c = choose|c: int|
                        0 <= c < before.claims.len() && (
                        #[trigger] before.claims[c]).claim.claim_type is OriginCountry
                            && before.claims[c].status is Approved;
                    assert(before.claims[c].status.may_become(after.claims[c].status));
                    assert(claim_kept(before.claims[c], after.claims[c]));
                    assert(after.claims[c].claim.claim_type is OriginCountry);
                    if after.claims[c].status is Revoked {
                        assert(origin_revoked(before, after));
                    }
                    assert(after.claims[c].status is Approved);
                }
            }
            if (exists|c: int|
                0 <= c < after.claims.len() && (#[trigger] after.claims[c]).claim.claim_type
                    is OriginCountry && after.claims[c].status is Approved) && (forall|c: int|
                0 <= c < after.claims.len() && (#[trigger] after.claims[c]).claim.claim_type
                    is OriginCountry ==> !(after.claims[c].status is Revoked)) {
                let c = choose|c: int|
                    0 <= c < after.claims.len() && (#[trigger] after.claims[c]).claim.claim_type
                        is OriginCountry && after.claims[c].status is Approved;
                assert(c < before.claims.len());
                assert(claim_kept(before.claims[c], after.claims[c]));
                assert(before.claims[c].status.may_become(after.claims[c].status));
                assert(!origin_revoked(before, after)) by {
                    if origin_revoked(before, after) {
                        let d = choose|d: int|
                            0 <= d < before.claims.len() && d < after.claims.len() && (
                            #[trigger] before.claims[d]).claim.claim_type is OriginCountry
                                && before.claims[d].status is Approved && after.claims[d].status
                                is Revoked;
                        assert(claim_kept(before.claims[d], after.claims[d]));
                        assert(after.claims[d].claim.claim_type is OriginCountry);
                    }
                }
                if before.claims[c].status is Pending {
                    assert(origin_approved(before, after));
                } else {
                    assert(before.claims[c].status is Approved);
                    assert forall|d: int|
                        0 <= d < before.claims.len() && (
                        #[trigger] before.claims[d]).claim.claim_type
                            is OriginCountry implies !(before.claims[d].status is Revoked) by {
                        assert(before.claims[d].status.may_become(after.claims[d].status));
                        assert(claim_kept(before.claims[d], after.claims[d]));
                        assert(after.claims[d].claim.claim_type is OriginCountry);
                    }
                    assert(before.product.origin_verified);
                }
            }
        } else {
            assert(!after.product.origin_verified);
            assert(after.claims.len() == 0);
        }
    }
}

} // verus!
