//! Why a pending claim has its waiting entry until it is settled.
use crate::history::{all_pending_wait, keeps_clear, waits};
use crate::invariants::{
    differs_at, lemma_examine_cross_chain, lemma_examine_pending, lemma_locate,
    lemma_settle_differs_at, lemma_sweep_cross_chain, lemma_sweep_pending,
};
use crate::keys::{
    distinct, lemma_position, lemma_position_push, lemma_position_remove, position, AccountId,
    BlockNumber,
};
use crate::model::{
    claim_ids, cross_chain_ids, pending_ids, product_ids, reason_cross_chain_impossible,
    reason_impossible, Call, CrossChainView, PalletView, PendingView,
};
use crate::runtime_integration::{ClaimVerifier, CrossChainMessageView, VerificationResultView};
use crate::types::VerificationStatusView;
use vstd::prelude::*;

verus! {

/// Without one of them, the local entries hold for every other name what
/// they held.
pub proof fn lemma_pending_entry_remove(s: PalletView, at: int, key: Seq<u8>)
    requires
        distinct(pending_ids(s.pending)),
        0 <= at < s.pending.len(),
        key != s.pending[at].claim_id,
    ensures
        (PalletView { pending: s.pending.remove(at), ..s }).pending_entry(key) == s.pending_entry(
            key,
        ),
{
    let ids = pending_ids(s.pending);
    assert(ids[at] == s.pending[at].claim_id);
    assert(pending_ids(s.pending.remove(at)) =~= ids.remove(at));
    lemma_position_remove(ids, at, key);
    lemma_position(ids, key);
}

/// Without one of them, the cross-chain entries hold for every other name
/// what they held.
pub proof fn lemma_cross_chain_entry_remove(s: PalletView, at: int, key: Seq<u8>)
    requires
        distinct(cross_chain_ids(s.cross_chain)),
        0 <= at < s.cross_chain.len(),
        key != s.cross_chain[at].claim_id,
    ensures
        (PalletView { cross_chain: s.cross_chain.remove(at), ..s }).cross_chain_entry(key)
            == s.cross_chain_entry(key),
{
    let ids = cross_chain_ids(s.cross_chain);
    assert(ids[at] == s.cross_chain[at].claim_id);
    assert(cross_chain_ids(s.cross_chain.remove(at)) =~= ids.remove(at));
    lemma_position_remove(ids, at, key);
    lemma_position(ids, key);
}

/// With one more, the local entries hold for every other name what they
/// held, and the new entry for its own name where that name was free.
pub proof fn lemma_pending_entry_push(s: PalletView, entry: PendingView, key: Seq<u8>)
    ensures
        key != entry.claim_id ==> (PalletView { pending: s.pending.push(entry), ..s }).pending_entry(
            key,
        ) == s.pending_entry(key),
        key == entry.claim_id && s.pending_entry(key) is None ==> (PalletView {
            pending: s.pending.push(entry),
            ..s
        }).pending_entry(key) == Some(entry),
{
    let ids = pending_ids(s.pending);
    assert(pending_ids(s.pending.push(entry)) =~= ids.push(entry.claim_id));
    lemma_position_push(ids, entry.claim_id, key);
    lemma_position(ids, key);
}

/// With one more, the cross-chain entries hold for every other name what
/// they held, and the new entry for its own name where that name was free.
pub proof fn lemma_cross_chain_entry_push(s: PalletView, entry: CrossChainView, key: Seq<u8>)
    ensures
        key != entry.claim_id ==> (PalletView {
            cross_chain: s.cross_chain.push(entry),
            ..s
        }).cross_chain_entry(key) == s.cross_chain_entry(key),
        key == entry.claim_id && s.cross_chain_entry(key) is None ==> (PalletView {
            cross_chain: s.cross_chain.push(entry),
            ..s
        }).cross_chain_entry(key) == Some(entry),
{
    let ids = cross_chain_ids(s.cross_chain);
    assert(cross_chain_ids(s.cross_chain.push(entry)) =~= ids.push(entry.claim_id));
    lemma_position_push(ids, entry.claim_id, key);
    lemma_position(ids, key);
}

/// Two products of one name are one product, and two claims of one name in
/// it are one claim.
pub proof fn lemma_names_tell_apart(s: PalletView, p: int, q: int, c: int, d: int)
    requires
        s.consistent(),
        0 <= p < s.records.len(),
        0 <= q < s.records.len(),
        s.records[p].product.id == s.records[q].product.id,
    ensures
        p == q,
        0 <= c < s.records[p].claims.len() && 0 <= d < s.records[p].claims.len()
            && s.records[p].claims[c].claim_id == s.records[p].claims[d].claim_id ==> c == d,
{
    let ids = product_ids(s.records);
    assert(ids[p] == s.records[p].product.id);
    assert(ids[q] == s.records[q].product.id);
    assert(s.record_in_order(p));
    if 0 <= c < s.records[p].claims.len() && 0 <= d < s.records[p].claims.len() {
        let names = claim_ids(s.records[p].claims);
        assert(names[c] == s.records[p].claims[c].claim_id);
        assert(names[d] == s.records[p].claims[d].claim_id);
    }
}

/// Where one pending claim was settled and the waiting entries of other
/// claims were left, every pending claim still has its entry.
pub proof fn lemma_settled_leaves_waiting(s: PalletView, t: PalletView, p: int, c: int)
    requires
        s.consistent(),
        all_pending_wait(s),
        differs_at(s, t, p, c),
        s.records[p].claims[c].status is Pending,
        !(t.records[p].claims[c].status is Pending),
        forall|key: Seq<u8>|
            key != s.records[p].claims[c].claim_id ==> #[trigger] t.pending_entry(key)
                == s.pending_entry(key),
        forall|key: Seq<u8>|
            key != s.records[p].claims[c].claim_id ==> #[trigger] t.cross_chain_entry(key)
                == s.cross_chain_entry(key),
        s.pending_entry(s.records[p].claims[c].claim_id) matches Some(entry) ==> entry.product_id
            == s.records[p].product.id || t.pending_entry(s.records[p].claims[c].claim_id)
            == Some(entry),
        s.cross_chain_entry(s.records[p].claims[c].claim_id) matches Some(entry)
            ==> entry.product_id == s.records[p].product.id || t.cross_chain_entry(
            s.records[p].claims[c].claim_id,
        ) == Some(entry),
    ensures
        all_pending_wait(t),
{
    let name = s.records[p].claims[c].claim_id;
    assert forall|q: int, d: int|
        0 <= q < t.records.len() && 0 <= d < t.records[q].claims.len() && (
        #[trigger] t.records[q].claims[d]).status is Pending implies waits(t, q, d) by {
        assert(!(q == p && d == c));
        assert(t.records[q].claims[d] == s.records[q].claims[d]);
        let claim = s.records[q].claims[d];
        assert(waits(s, q, d));
        if claim.claim_id == name {
            if claim.is_cross_chain {
                let entry = s.cross_chain_entry(name)->0;
                if entry.product_id == s.records[p].product.id {
                    lemma_names_tell_apart(s, p, q, c, d);
                }
            } else {
                let entry = s.pending_entry(name)->0;
                if entry.product_id == s.records[p].product.id {
                    lemma_names_tell_apart(s, p, q, c, d);
                }
            }
        } else {
            assert(t.pending_entry(claim.claim_id) == s.pending_entry(claim.claim_id));
            assert(t.cross_chain_entry(claim.claim_id) == s.cross_chain_entry(claim.claim_id));
        }
    }
}

/// Where no claim changed and every waiting entry was left, every pending
/// claim still has its entry.
pub proof fn lemma_untouched_leaves_waiting(s: PalletView, t: PalletView)
    requires
        all_pending_wait(s),
        t.records.len() == s.records.len(),
        forall|q: int|
            0 <= q < s.records.len() ==> (#[trigger] t.records[q]).product.id
                == s.records[q].product.id && t.records[q].claims.len()
                == s.records[q].claims.len(),
        forall|q: int, d: int|
            0 <= q < s.records.len() && 0 <= d < s.records[q].claims.len() ==> {
                &&& (#[trigger] t.records[q].claims[d]).claim_id == s.records[q].claims[d].claim_id
                &&& t.records[q].claims[d].is_cross_chain == s.records[q].claims[d].is_cross_chain
                &&& t.records[q].claims[d].status is Pending ==> s.records[q].claims[d].status
                    is Pending
            },
        forall|key: Seq<u8>|
            (#[trigger] s.pending_entry(key)) matches Some(entry) ==> t.pending_entry(key)
                matches Some(kept) && kept.product_id == entry.product_id,
        forall|key: Seq<u8>|
            (#[trigger] s.cross_chain_entry(key)) matches Some(entry) ==> t.cross_chain_entry(key)
                matches Some(kept) && kept.product_id == entry.product_id,
    ensures
        all_pending_wait(t),
{
    assert forall|q: int, d: int|
        0 <= q < t.records.len() && 0 <= d < t.records[q].claims.len() && (
        #[trigger] t.records[q].claims[d]).status is Pending implies waits(t, q, d) by {
        let claim = s.records[q].claims[d];
        assert(claim.status is Pending);
        assert(waits(s, q, d));
        if claim.is_cross_chain {
            assert(s.cross_chain_entry(claim.claim_id) is Some);
        } else {
            assert(s.pending_entry(claim.claim_id) is Some);
        }
    }
}

/// Settling the claim of a local entry and removing the entry leaves every
/// pending claim its entry.
proof fn lemma_settle_pending_waiting(
    s: PalletView,
    at: int,
    status: VerificationStatusView,
    verifier: Option<AccountId>,
    verified_at: Option<BlockNumber>,
    t: PalletView,
)
    requires
        s.consistent(),
        all_pending_wait(s),
        0 <= at < s.pending.len(),
        !(status is Pending),
        ({
            let (p, c) = s.locate(s.pending[at].product_id, s.pending[at].claim_id)->0;
            t == (PalletView {
                pending: s.pending.remove(at),
                ..s.settle(p, c, status, verifier, verified_at)
            })
        }),
    ensures
        all_pending_wait(t),
{
    let entry = s.pending[at];
    assert(s.awaits(entry.product_id, entry.claim_id, false));
    lemma_locate(s, entry.product_id, entry.claim_id);
    let (p, c) = s.locate(entry.product_id, entry.claim_id)->0;
    lemma_settle_differs_at(s, p, c, status, verifier, verified_at);
    let ids = pending_ids(s.pending);
    assert(ids[at] == entry.claim_id);
    lemma_position(ids, entry.claim_id);
    assert(s.pending_entry(entry.claim_id) == Some(entry));
    assert forall|key: Seq<u8>| key != entry.claim_id implies #[trigger] t.pending_entry(key)
        == s.pending_entry(key) by {
        lemma_pending_entry_remove(s, at, key);
    }
    lemma_settled_leaves_waiting(s, t, p, c);
}

/// Settling the claim of a cross-chain entry and removing the entry leaves
/// every pending claim its entry.
proof fn lemma_settle_cross_chain_waiting(
    s: PalletView,
    at: int,
    status: VerificationStatusView,
    verifier: Option<AccountId>,
    verified_at: Option<BlockNumber>,
    t: PalletView,
)
    requires
        s.consistent(),
        all_pending_wait(s),
        0 <= at < s.cross_chain.len(),
        !(status is Pending),
        ({
            let (p, c) = s.locate(s.cross_chain[at].product_id, s.cross_chain[at].claim_id)->0;
            t == (PalletView {
                cross_chain: s.cross_chain.remove(at),
                ..s.settle(p, c, status, verifier, verified_at)
            })
        }),
    ensures
        all_pending_wait(t),
{
    let entry = s.cross_chain[at];
    assert(s.awaits(entry.product_id, entry.claim_id, true));
    lemma_locate(s, entry.product_id, entry.claim_id);
    let (p, c) = s.locate(entry.product_id, entry.claim_id)->0;
    lemma_settle_differs_at(s, p, c, status, verifier, verified_at);
    let ids = cross_chain_ids(s.cross_chain);
    assert(ids[at] == entry.claim_id);
    lemma_position(ids, entry.claim_id);
    assert(s.cross_chain_entry(entry.claim_id) == Some(entry));
    assert forall|key: Seq<u8>| key != entry.claim_id implies #[trigger] t.cross_chain_entry(key)
        == s.cross_chain_entry(key) by {
        lemma_cross_chain_entry_remove(s, at, key);
    }
    lemma_settled_leaves_waiting(s, t, p, c);
}

/// Examining a local entry leaves every pending claim its entry.
proof fn lemma_examine_pending_waiting<V: ClaimVerifier>(
    s: PalletView,
    verifier: V,
    now: BlockNumber,
    at: int,
)
    requires
        s.consistent(),
        all_pending_wait(s),
        0 <= at < s.pending.len(),
    ensures
        all_pending_wait(s.examine_pending(verifier, now, at).state),
{
    let entry = s.pending[at];
    assert(s.awaits(entry.product_id, entry.claim_id, false));
    lemma_locate(s, entry.product_id, entry.claim_id);
    let (p, c) = s.locate(entry.product_id, entry.claim_id)->0;
    let claim = s.records[p].claims[c];
    let t = s.examine_pending(verifier, now, at).state;
    if now >= entry.deadline {
        lemma_settle_pending_waiting(
            s,
            at,
            VerificationStatusView::TimedOut,
            claim.verifier,
            claim.verified_at,
            t,
        );
    } else {
        match verifier.verdict(claim.claim) {
            VerificationResultView::Success => {
                lemma_settle_pending_waiting(
                    s,
                    at,
                    VerificationStatusView::Approved,
                    None,
                    Some(now),
                    t,
                );
            },
            VerificationResultView::Failure(reason) => {
                lemma_settle_pending_waiting(
                    s,
                    at,
                    VerificationStatusView::Rejected(reason),
                    None,
                    Some(now),
                    t,
                );
            },
            VerificationResultView::Pending => {},
            VerificationResultView::Impossible => {
                lemma_settle_pending_waiting(
                    s,
                    at,
                    VerificationStatusView::Failed(reason_impossible()),
                    None,
                    Some(now),
                    t,
                );
            },
        }
    }
}

/// Examining a cross-chain entry leaves every pending claim its entry.
proof fn lemma_examine_cross_chain_waiting(s: PalletView, now: BlockNumber, at: int)
    requires
        s.consistent(),
        all_pending_wait(s),
        0 <= at < s.cross_chain.len(),
    ensures
        all_pending_wait(s.examine_cross_chain(now, at).state),
{
    let entry = s.cross_chain[at];
    assert(s.awaits(entry.product_id, entry.claim_id, true));
    lemma_locate(s, entry.product_id, entry.claim_id);
    let (p, c) = s.locate(entry.product_id, entry.claim_id)->0;
    let claim = s.records[p].claims[c];
    let t = s.examine_cross_chain(now, at).state;
    if now >= entry.deadline {
        lemma_settle_cross_chain_waiting(
            s,
            at,
            VerificationStatusView::TimedOut,
            claim.verifier,
            claim.verified_at,
            t,
        );
    }
}

/// A sweep over the local entries leaves every pending claim its entry.
proof fn lemma_sweep_pending_waiting<V: ClaimVerifier>(
    s: PalletView,
    verifier: V,
    now: BlockNumber,
    at: int,
    budget: nat,
)
    requires
        s.consistent(),
        all_pending_wait(s),
    ensures
        all_pending_wait(s.sweep_pending(verifier, now, at, budget).state),
    decreases budget,
{
    if budget == 0 || at < 0 || at >= s.pending.len() {
    } else {
        let first = s.examine_pending(verifier, now, at);
        lemma_examine_pending(s, verifier, now, at);
        lemma_examine_pending_waiting(s, verifier, now, at);
        let next = if first.kept {
            at + 1
        } else {
            at
        };
        lemma_sweep_pending_waiting(first.state, verifier, now, next, (budget - 1) as nat);
    }
}

/// A sweep over the cross-chain entries leaves every pending claim its
/// entry.
proof fn lemma_sweep_cross_chain_waiting(s: PalletView, now: BlockNumber, at: int, budget: nat)
    requires
        s.consistent(),
        all_pending_wait(s),
    ensures
        all_pending_wait(s.sweep_cross_chain(now, at, budget).state),
    decreases budget,
{
    if budget == 0 || at < 0 || at >= s.cross_chain.len() {
    } else {
        let first = s.examine_cross_chain(now, at);
        lemma_examine_cross_chain(s, now, at);
        lemma_examine_cross_chain_waiting(s, now, at);
        let next = if first.kept {
            at + 1
        } else {
            at
        };
        lemma_sweep_cross_chain_waiting(first.state, now, next, (budget - 1) as nat);
    }
}

/// A call that keeps clear of the waiting entries of other products leaves
/// every pending claim its entry.
pub proof fn lemma_step_waiting<V: ClaimVerifier>(before: PalletView, call: Call<V>)
    requires
        before.consistent(),
        all_pending_wait(before),
        keeps_clear(before, call),
    ensures
        all_pending_wait(before.apply(call).state),
{
    if before.apply(call).outcome is Ok {
        lemma_granted_step_waiting(before, call);
    }
}

/// The same of a call that is not refused.
proof fn lemma_granted_step_waiting<V: ClaimVerifier>(before: PalletView, call: Call<V>)
    requires
        before.consistent(),
        all_pending_wait(before),
        keeps_clear(before, call),
        before.apply(call).outcome is Ok,
    ensures
        all_pending_wait(before.apply(call).state),
{
    let after = before.apply(call).state;
    match call {
        Call::RegisterProduct { .. } => {
            assert forall|q: int, d: int|
                0 <= q < after.records.len() && 0 <= d < after.records[q].claims.len() && (
                #[trigger] after.records[q].claims[d]).status is Pending implies waits(
                after,
                q,
                d,
            ) by {
                assert(after.records[q] == before.records[q]);
                assert(waits(before, q, d));
            }
        },
        Call::Submit { product_id, claim_id, para_id, .. } => {
            lemma_position(product_ids(before.records), product_id);
            let p = before.product_index(product_id)->0;
            let n = before.records[p].claims.len() as int;
            assert(after.records[p].claims[n].claim_id == claim_id);
            assert forall|q: int, d: int|
                0 <= q < after.records.len() && 0 <= d < after.records[q].claims.len() && (
                #[trigger] after.records[q].claims[d]).status is Pending implies waits(
                after,
                q,
                d,
            ) by {
                let claim = after.records[q].claims[d];
                assert(after.records[q].product.id == before.records[q].product.id);
                match para_id {
                    None => {
                        let entry = after.pending[after.pending.len() - 1];
                        lemma_pending_entry_push(before, entry, claim.claim_id);
                        lemma_position(pending_ids(before.pending), claim_id);
                        assert(after.pending == before.pending.push(entry));
                        if q == p && d == n {
                        } else {
                            if q == p {
                                assert(after.records[q].claims[d] == before.records[q].claims[d]);
                            } else {
                                assert(after.records[q] == before.records[q]);
                            }
                            assert(waits(before, q, d));
                        }
                    },
                    Some(para) => {
                        let entry = after.cross_chain[after.cross_chain.len() - 1];
                        lemma_cross_chain_entry_push(before, entry, claim.claim_id);
                        lemma_position(cross_chain_ids(before.cross_chain), claim_id);
                        assert(after.cross_chain == before.cross_chain.push(entry));
                        if q == p && d == n {
                        } else {
                            if q == p {
                                assert(after.records[q].claims[d] == before.records[q].claims[d]);
                            } else {
                                assert(after.records[q] == before.records[q]);
                            }
                            assert(waits(before, q, d));
                        }
                    },
                }
            }
        },
        Call::VerifyClaim { who, product_id, claim_id, approved, reason, now } => {
            lemma_locate(before, product_id, claim_id);
            let p = before.product_index(product_id)->0;
            let c = before.claim_index(p, claim_id)->0;
            let status = if approved {
                VerificationStatusView::Approved
            } else {
                VerificationStatusView::Rejected(
                    match reason {
                        Some(bytes) => bytes,
                        None => Seq::empty(),
                    },
                )
            };
            lemma_settle_differs_at(before, p, c, status, Some(who), Some(now));
            lemma_position(pending_ids(before.pending), claim_id);
            lemma_position(cross_chain_ids(before.cross_chain), claim_id);
            assert forall|key: Seq<u8>| key != claim_id implies #[trigger] after.pending_entry(key)
                == before.pending_entry(key) by {
                if let Some(at) = position(pending_ids(before.pending), claim_id) {
                    assert(pending_ids(before.pending)[at] == before.pending[at].claim_id);
                    lemma_pending_entry_remove(before, at, key);
                }
            }
            assert forall|key: Seq<u8>|
                key != claim_id implies #[trigger] after.cross_chain_entry(key)
                == before.cross_chain_entry(key) by {
                if let Some(at) = position(cross_chain_ids(before.cross_chain), claim_id) {
                    assert(cross_chain_ids(before.cross_chain)[at]
                        == before.cross_chain[at].claim_id);
                    lemma_cross_chain_entry_remove(before, at, key);
                }
            }
            lemma_settled_leaves_waiting(before, after, p, c);
        },
        Call::RevokeClaim { product_id, claim_id, .. } => {
            lemma_locate(before, product_id, claim_id);
            lemma_untouched_leaves_waiting(before, after);
        },
        Call::UpdateVerificationFee { .. } => {
            lemma_untouched_leaves_waiting(before, after);
        },
        Call::SetVerifierAuthorization { .. } => {
            lemma_untouched_leaves_waiting(before, after);
        },
        Call::UpdateProductInfo { product_id, .. } => {
            lemma_position(product_ids(before.records), product_id);
            lemma_untouched_leaves_waiting(before, after);
        },
        Call::DeactivateProduct { product_id, .. } => {
            lemma_position(product_ids(before.records), product_id);
            lemma_untouched_leaves_waiting(before, after);
        },
        Call::HandleCrossChainMessage { para_id, message, now } => {
            if let CrossChainMessageView::VerificationResponse { claim_id, result } = message {
                let ids = cross_chain_ids(before.cross_chain);
                lemma_position(ids, claim_id);
                if let Some(at) = position(ids, claim_id) {
                    let entry = before.cross_chain[at];
                    assert(ids[at] == entry.claim_id);
                    assert(before.awaits(entry.product_id, entry.claim_id, true));
                    lemma_locate(before, entry.product_id, claim_id);
                    let (p, c) = before.locate(entry.product_id, claim_id)->0;
                    let claim = before.records[p].claims[c];
                    match result {
                        VerificationResultView::Success => {
                            lemma_settle_cross_chain_waiting(
                                before,
                                at,
                                VerificationStatusView::Approved,
                                claim.verifier,
                                Some(now),
                                after,
                            );
                        },
                        VerificationResultView::Failure(reason) => {
                            lemma_settle_cross_chain_waiting(
                                before,
                                at,
                                VerificationStatusView::Rejected(reason),
                                claim.verifier,
                                Some(now),
                                after,
                            );
                        },
                        VerificationResultView::Impossible => {
                            lemma_settle_cross_chain_waiting(
                                before,
                                at,
                                VerificationStatusView::Failed(reason_cross_chain_impossible()),
                                claim.verifier,
                                Some(now),
                                after,
                            );
                        },
                        VerificationResultView::Pending => {
                            let taken = PalletView {
                                cross_chain: before.cross_chain.remove(at),
                                ..before
                            };
                            let entered = after.cross_chain[after.cross_chain.len() - 1];
                            assert(after.cross_chain == taken.cross_chain.push(entered));
                            assert forall|key: Seq<u8>|
                                (#[trigger] before.cross_chain_entry(key))
                                    is Some implies after.cross_chain_entry(key) is Some
                                && after.cross_chain_entry(key)->0.product_id
                                == before.cross_chain_entry(key)->0.product_id by {
                                lemma_cross_chain_entry_push(taken, entered, key);
                                if key != claim_id {
                                    lemma_cross_chain_entry_remove(before, at, key);
                                } else {
                                    crate::invariants::lemma_remove_cross_chain(
                                        before.cross_chain,
                                        at,
                                    );
                                    let left = taken.cross_chain;
                                    assert forall|j: int| 0 <= j < left.len() implies cross_chain_ids(
                                        left,
                                    )[j] != claim_id by {
                                        assert(left[j].claim_id != before.cross_chain[at].claim_id);
                                    }
                                    crate::keys::lemma_position_absent(
                                        cross_chain_ids(left),
                                        claim_id,
                                    );
                                }
                            }
                            lemma_untouched_leaves_waiting(before, after);
                        },
                    }
                }
            }
        },
        Call::Tick { verifier, now } => {
            let limit = before.config.verification_limit as nat;
            let local = before.sweep_pending(verifier, now, 0, limit);
            lemma_sweep_pending(before, verifier, now, 0, limit);
            lemma_sweep_pending_waiting(before, verifier, now, 0, limit);
            let left = (before.config.verification_limit - local.examined) as nat;
            lemma_sweep_cross_chain(local.state, now, 0, left);
            lemma_sweep_cross_chain_waiting(local.state, now, 0, left);
        },
    }
}

} // verus!
