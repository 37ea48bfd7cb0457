//! Why every operation takes a consistent state to a consistent state,
//! and never takes a claim or a product back.
use crate::bounded::MAX_METADATA_LENGTH;
use crate::history::{claim_kept, product_follows, moves_forward, settles_only};
use crate::keys::{
    distinct, lemma_distinct_push, lemma_position, lemma_position_push, position, AccountId,
    Balance, BlockNumber,
};
use crate::model::{
    bind, bind_all, claim_ids, cross_chain_ids, firsts, pending_ids, product_ids,
    without_cross_chain, without_pending, CrossChainView, PalletView, PendingView,
};
use crate::runtime_integration::{
    ClaimTypeView, ClaimVerifier, CrossChainMessageView, VerificationResultView, ZkClaimView,
};
use crate::types::{Config, ProductView, VerificationStatusView, VerifiedClaimView};
use vstd::prelude::*;

verus! {

/// A claim that is found stands where it is found and has the names it was
/// looked up by.
pub proof fn lemma_locate(s: PalletView, product_id: Seq<u8>, claim_id: Seq<u8>)
    ensures
        match s.locate(product_id, claim_id) {
            Some((p, c)) => {
                &&& 0 <= p < s.records.len()
                &&& s.records[p].product.id == product_id
                &&& 0 <= c < s.records[p].claims.len()
                &&& s.records[p].claims[c].claim_id == claim_id
                &&& s.product_index(product_id) == Some(p)
                &&& s.claim_index(p, claim_id) == Some(c)
            },
            None => true,
        },
{
    lemma_position(product_ids(s.records), product_id);
    if let Some(p) = s.product_index(product_id) {
        lemma_position(claim_ids(s.records[p].claims), claim_id);
    }
}

/// Two states whose products and claims have the same names find the same
/// claims.
pub open spec fn same_names(s: PalletView, t: PalletView) -> bool {
    &&& product_ids(t.records) == product_ids(s.records)
    &&& forall|p: int|
        0 <= p < s.records.len() ==> claim_ids(#[trigger] t.records[p].claims) == claim_ids(
            s.records[p].claims,
        )
}

/// The claims of `t` are those of `s`, but for claim `c` of product `p`,
/// which kept its name and its kind.
pub open spec fn differs_at(s: PalletView, t: PalletView, p: int, c: int) -> bool {
    &&& t.config == s.config
    &&& t.records.len() == s.records.len()
    &&& forall|q: int|
        0 <= q < s.records.len() ==> {
            &&& (#[trigger] t.records[q]).product.id == s.records[q].product.id
            &&& t.records[q].product.metadata == s.records[q].product.metadata
            &&& t.records[q].claims.len() == s.records[q].claims.len()
        }
    &&& forall|q: int, d: int|
        0 <= q < s.records.len() && 0 <= d < s.records[q].claims.len() && !(q == p && d == c)
            ==> #[trigger] t.records[q].claims[d] == s.records[q].claims[d]
    &&& 0 <= p < s.records.len()
    &&& 0 <= c < s.records[p].claims.len()
    &&& t.records[p].claims[c].claim_id == s.records[p].claims[c].claim_id
    &&& t.records[p].claims[c].is_cross_chain == s.records[p].claims[c].is_cross_chain
    &&& t.records[p].claims[c].source_para_id == s.records[p].claims[c].source_para_id
}

/// Where only one claim differs, and not by its name, the names are the
/// same.
pub proof fn lemma_differs_at_same_names(s: PalletView, t: PalletView, p: int, c: int)
    requires
        differs_at(s, t, p, c),
    ensures
        same_names(s, t),
{
    assert(product_ids(t.records) =~= product_ids(s.records));
    assert forall|q: int| 0 <= q < s.records.len() implies claim_ids(
        #[trigger] t.records[q].claims,
    ) == claim_ids(s.records[q].claims) by {
        assert forall|d: int| 0 <= d < s.records[q].claims.len() implies t.records[q].claims[d].claim_id
            == s.records[q].claims[d].claim_id by {
            if q == p && d == c {
            } else {
                assert(t.records[q].claims[d] == s.records[q].claims[d]);
            }
        }
        assert(claim_ids(t.records[q].claims) =~= claim_ids(s.records[q].claims));
    }
}

/// Settling a claim changes that claim alone, and neither its name nor its
/// kind.
pub proof fn lemma_settle_differs_at(
    s: PalletView,
    p: int,
    c: int,
    status: VerificationStatusView,
    verifier: Option<AccountId>,
    verified_at: Option<BlockNumber>,
)
    requires
        0 <= p < s.records.len(),
        0 <= c < s.records[p].claims.len(),
    ensures
        differs_at(s, s.settle(p, c, status, verifier, verified_at), p, c),
        s.settle(p, c, status, verifier, verified_at).pending == s.pending,
        s.settle(p, c, status, verifier, verified_at).cross_chain == s.cross_chain,
        s.settle(p, c, status, verifier, verified_at).fees == s.fees,
        s.settle(p, c, status, verifier, verified_at).verifiers == s.verifiers,
        s.settle(p, c, status, verifier, verified_at).records[p].claims[c] == (VerifiedClaimView {
            status,
            verifier,
            verified_at,
            ..s.records[p].claims[c]
        }),
{
}

/// A state that differs from a consistent one in one claim is consistent
/// where its waiting entries are distinct and each points to a waiting
/// claim of the other state, and not to the one that differs.
pub proof fn lemma_differs_at_consistent(s: PalletView, t: PalletView, p: int, c: int)
    requires
        s.consistent(),
        differs_at(s, t, p, c),
        t.fees == s.fees,
        t.verifiers == s.verifiers,
        distinct(pending_ids(t.pending)),
        distinct(cross_chain_ids(t.cross_chain)),
        forall|e: int|
            0 <= e < t.pending.len() ==> {
                &&& s.awaits((#[trigger] t.pending[e]).product_id, t.pending[e].claim_id, false)
                &&& s.locate(t.pending[e].product_id, t.pending[e].claim_id) != Some((p, c))
            },
        forall|e: int|
            0 <= e < t.cross_chain.len() ==> {
                &&& s.awaits(
                    (#[trigger] t.cross_chain[e]).product_id,
                    t.cross_chain[e].claim_id,
                    true,
                )
                &&& s.locate(t.cross_chain[e].product_id, t.cross_chain[e].claim_id) != Some(
                    (p, c),
                )
            },
    ensures
        t.consistent(),
{
    lemma_differs_at_same_names(s, t, p, c);
    assert forall|q: int| 0 <= q < t.records.len() implies #[trigger] t.record_in_order(q) by {
        assert(s.record_in_order(q));
        assert(claim_ids(t.records[q].claims) == claim_ids(s.records[q].claims));
        assert forall|d: int| 0 <= d < t.records[q].claims.len() implies (
        #[trigger] t.records[q].claims[d]).is_cross_chain
            == t.records[q].claims[d].source_para_id.is_some() by {
            assert(s.records[q].claims[d].is_cross_chain
                == s.records[q].claims[d].source_para_id.is_some());
            if q == p && d == c {
            } else {
                assert(t.records[q].claims[d] == s.records[q].claims[d]);
            }
        }
    }
    assert forall|e: int| 0 <= e < t.pending.len() implies t.awaits(
        (#[trigger] t.pending[e]).product_id,
        t.pending[e].claim_id,
        false,
    ) by {
        lemma_same_names_awaits(s, t, p, c, t.pending[e].product_id, t.pending[e].claim_id, false);
    }
    assert forall|e: int| 0 <= e < t.cross_chain.len() implies t.awaits(
        (#[trigger] t.cross_chain[e]).product_id,
        t.cross_chain[e].claim_id,
        true,
    ) by {
        lemma_same_names_awaits(
            s,
            t,
            p,
            c,
            t.cross_chain[e].product_id,
            t.cross_chain[e].claim_id,
            true,
        );
    }
}

/// A claim that waits in `s` and is not the one that differs waits in `t`.
proof fn lemma_same_names_awaits(
    s: PalletView,
    t: PalletView,
    p: int,
    c: int,
    product_id: Seq<u8>,
    claim_id: Seq<u8>,
    cross_chain: bool,
)
    requires
        differs_at(s, t, p, c),
        s.awaits(product_id, claim_id, cross_chain),
        s.locate(product_id, claim_id) != Some((p, c)),
    ensures
        t.awaits(product_id, claim_id, cross_chain),
        t.locate(product_id, claim_id) == s.locate(product_id, claim_id),
{
    lemma_differs_at_same_names(s, t, p, c);
    lemma_locate(s, product_id, claim_id);
    let (q, d) = s.locate(product_id, claim_id)->0;
    assert(claim_ids(t.records[q].claims) == claim_ids(s.records[q].claims));
    assert(t.locate(product_id, claim_id) == Some((q, d)));
    assert(t.records[q].claims[d] == s.records[q].claims[d]);
}

/// A state with the records of a consistent one is consistent where its
/// waiting entries are distinct and each points to a waiting claim.
pub proof fn lemma_same_records_consistent(s: PalletView, t: PalletView)
    requires
        s.consistent(),
        t.config == s.config,
        t.records == s.records,
        distinct(firsts(t.fees)),
        distinct(firsts(t.verifiers)),
        distinct(pending_ids(t.pending)),
        distinct(cross_chain_ids(t.cross_chain)),
        forall|e: int|
            0 <= e < t.pending.len() ==> s.awaits(
                (#[trigger] t.pending[e]).product_id,
                t.pending[e].claim_id,
                false,
            ),
        forall|e: int|
            0 <= e < t.cross_chain.len() ==> s.awaits(
                (#[trigger] t.cross_chain[e]).product_id,
                t.cross_chain[e].claim_id,
                true,
            ),
    ensures
        t.consistent(),
{
    assert forall|q: int| 0 <= q < t.records.len() implies #[trigger] t.record_in_order(q) by {
        assert(s.record_in_order(q));
    }
    assert forall|e: int| 0 <= e < t.pending.len() implies t.awaits(
        (#[trigger] t.pending[e]).product_id,
        t.pending[e].claim_id,
        false,
    ) by {
        assert(s.awaits(t.pending[e].product_id, t.pending[e].claim_id, false));
    }
    assert forall|e: int| 0 <= e < t.cross_chain.len() implies t.awaits(
        (#[trigger] t.cross_chain[e]).product_id,
        t.cross_chain[e].claim_id,
        true,
    ) by {
        assert(s.awaits(t.cross_chain[e].product_id, t.cross_chain[e].claim_id, true));
    }
}

/// Without one of them, distinct local entries are distinct, each is one of
/// those before, and none has the name of the one that left.
pub proof fn lemma_remove_pending(pending: Seq<PendingView>, at: int)
    requires
        distinct(pending_ids(pending)),
        0 <= at < pending.len(),
    ensures
        distinct(pending_ids(pending.remove(at))),
        forall|e: int|
            0 <= e < pending.remove(at).len() ==> {
                &&& #[trigger] pending.remove(at)[e] == pending[if e < at {
                    e
                } else {
                    e + 1
                }]
                &&& pending.remove(at)[e].claim_id != pending[at].claim_id
            },
{
    let ids = pending_ids(pending);
    let left = pending.remove(at);
    assert forall|e: int| 0 <= e < left.len() implies {
        &&& #[trigger] left[e] == pending[if e < at {
            e
        } else {
            e + 1
        }]
        &&& left[e].claim_id != pending[at].claim_id
    } by {
        let from = if e < at {
            e
        } else {
            e + 1
        };
        assert(ids[from] == pending[from].claim_id);
        assert(ids[at] == pending[at].claim_id);
    }
    assert forall|i: int, j: int| 0 <= i < j < left.len() implies pending_ids(left)[i]
        != pending_ids(left)[j] by {
        let from_i = if i < at {
            i
        } else {
            i + 1
        };
        let from_j = if j < at {
            j
        } else {
            j + 1
        };
        assert(ids[from_i] == pending[from_i].claim_id);
        assert(ids[from_j] == pending[from_j].claim_id);
    }
}

/// Without one of them, distinct cross-chain entries are distinct, each is
/// one of those before, and none has the name of the one that left.
pub proof fn lemma_remove_cross_chain(entries: Seq<CrossChainView>, at: int)
    requires
        distinct(cross_chain_ids(entries)),
        0 <= at < entries.len(),
    ensures
        distinct(cross_chain_ids(entries.remove(at))),
        forall|e: int|
            0 <= e < entries.remove(at).len() ==> {
                &&& #[trigger] entries.remove(at)[e] == entries[if e < at {
                    e
                } else {
                    e + 1
                }]
                &&& entries.remove(at)[e].claim_id != entries[at].claim_id
            },
{
    let ids = cross_chain_ids(entries);
    let left = entries.remove(at);
    assert forall|e: int| 0 <= e < left.len() implies {
        &&& #[trigger] left[e] == entries[if e < at {
            e
        } else {
            e + 1
        }]
        &&& left[e].claim_id != entries[at].claim_id
    } by {
        let from = if e < at {
            e
        } else {
            e + 1
        };
        assert(ids[from] == entries[from].claim_id);
        assert(ids[at] == entries[at].claim_id);
    }
    assert forall|i: int, j: int| 0 <= i < j < left.len() implies cross_chain_ids(left)[i]
        != cross_chain_ids(left)[j] by {
        let from_i = if i < at {
            i
        } else {
            i + 1
        };
        let from_j = if j < at {
            j
        } else {
            j + 1
        };
        assert(ids[from_i] == entries[from_i].claim_id);
        assert(ids[from_j] == entries[from_j].claim_id);
    }
}

/// Without the entry of a claim name, distinct local entries are distinct,
/// each is one of those before, and none has that name.
pub proof fn lemma_without_pending(pending: Seq<PendingView>, claim_id: Seq<u8>)
    requires
        distinct(pending_ids(pending)),
    ensures
        distinct(pending_ids(without_pending(pending, claim_id))),
        forall|e: int|
            0 <= e < without_pending(pending, claim_id).len() ==> {
                &&& exists|f: int|
                    0 <= f < pending.len() && pending[f] == #[trigger] without_pending(
                        pending,
                        claim_id,
                    )[e]
                &&& without_pending(pending, claim_id)[e].claim_id != claim_id
            },
{
    let ids = pending_ids(pending);
    let left = without_pending(pending, claim_id);
    lemma_position(ids, claim_id);
    match position(ids, claim_id) {
        Some(at) => {
            lemma_remove_pending(pending, at);
            assert forall|e: int| 0 <= e < left.len() implies {
                &&& exists|f: int| 0 <= f < pending.len() && pending[f] == #[trigger] left[e]
                &&& left[e].claim_id != claim_id
            } by {
                let from = if e < at {
                    e
                } else {
                    e + 1
                };
                assert(pending[from] == left[e]);
            }
        },
        None => {
            assert forall|e: int| 0 <= e < left.len() implies {
                &&& exists|f: int| 0 <= f < pending.len() && pending[f] == #[trigger] left[e]
                &&& left[e].claim_id != claim_id
            } by {
                assert(pending[e] == left[e]);
                assert(ids[e] == pending[e].claim_id);
            }
        },
    }
}

/// Without the entry of a claim name, distinct cross-chain entries are
/// distinct, each is one of those before, and none has that name.
pub proof fn lemma_without_cross_chain(entries: Seq<CrossChainView>, claim_id: Seq<u8>)
    requires
        distinct(cross_chain_ids(entries)),
    ensures
        distinct(cross_chain_ids(without_cross_chain(entries, claim_id))),
        forall|e: int|
            0 <= e < without_cross_chain(entries, claim_id).len() ==> {
                &&& exists|f: int|
                    0 <= f < entries.len() && entries[f] == #[trigger] without_cross_chain(
                        entries,
                        claim_id,
                    )[e]
                &&& without_cross_chain(entries, claim_id)[e].claim_id != claim_id
            },
{
    let ids = cross_chain_ids(entries);
    let left = without_cross_chain(entries, claim_id);
    lemma_position(ids, claim_id);
    match position(ids, claim_id) {
        Some(at) => {
            lemma_remove_cross_chain(entries, at);
            assert forall|e: int| 0 <= e < left.len() implies {
                &&& exists|f: int| 0 <= f < entries.len() && entries[f] == #[trigger] left[e]
                &&& left[e].claim_id != claim_id
            } by {
                let from = if e < at {
                    e
                } else {
                    e + 1
                };
                assert(entries[from] == left[e]);
            }
        },
        None => {
            assert forall|e: int| 0 <= e < left.len() implies {
                &&& exists|f: int| 0 <= f < entries.len() && entries[f] == #[trigger] left[e]
                &&& left[e].claim_id != claim_id
            } by {
                assert(entries[e] == left[e]);
                assert(ids[e] == entries[e].claim_id);
            }
        },
    }
}

/// Settling the claim of a local entry and removing the entry keeps the
/// state consistent.
pub proof fn lemma_settle_pending_consistent(
    s: PalletView,
    at: int,
    status: VerificationStatusView,
    verifier: Option<AccountId>,
    verified_at: Option<BlockNumber>,
)
    requires
        s.consistent(),
        0 <= at < s.pending.len(),
    ensures
        ({
            let (p, c) = s.locate(s.pending[at].product_id, s.pending[at].claim_id)->0;
            (PalletView {
                pending: s.pending.remove(at),
                ..s.settle(p, c, status, verifier, verified_at)
            }).consistent()
        }),
{
    let entry = s.pending[at];
    assert(s.awaits(entry.product_id, entry.claim_id, false));
    lemma_locate(s, entry.product_id, entry.claim_id);
    let (p, c) = s.locate(entry.product_id, entry.claim_id)->0;
    let settled = s.settle(p, c, status, verifier, verified_at);
    let t = PalletView { pending: s.pending.remove(at), ..settled };
    lemma_settle_differs_at(s, p, c, status, verifier, verified_at);
    lemma_remove_pending(s.pending, at);
    assert forall|e: int| 0 <= e < t.pending.len() implies {
        &&& s.awaits((#[trigger] t.pending[e]).product_id, t.pending[e].claim_id, false)
        &&& s.locate(t.pending[e].product_id, t.pending[e].claim_id) != Some((p, c))
    } by {
        let from = if e < at {
            e
        } else {
            e + 1
        };
        assert(t.pending[e] == s.pending[from]);
        assert(s.awaits(s.pending[from].product_id, s.pending[from].claim_id, false));
        lemma_locate(s, t.pending[e].product_id, t.pending[e].claim_id);
    }
    assert forall|e: int| 0 <= e < t.cross_chain.len() implies {
        &&& s.awaits((#[trigger] t.cross_chain[e]).product_id, t.cross_chain[e].claim_id, true)
        &&& s.locate(t.cross_chain[e].product_id, t.cross_chain[e].claim_id) != Some((p, c))
    } by {
        assert(t.cross_chain[e] == s.cross_chain[e]);
        assert(s.awaits(s.cross_chain[e].product_id, s.cross_chain[e].claim_id, true));
    }
    lemma_differs_at_consistent(s, t, p, c);
}

/// Settling the claim of a cross-chain entry and removing the entry keeps
/// the state consistent.
pub proof fn lemma_settle_cross_chain_consistent(
    s: PalletView,
    at: int,
    status: VerificationStatusView,
    verifier: Option<AccountId>,
    verified_at: Option<BlockNumber>,
)
    requires
        s.consistent(),
        0 <= at < s.cross_chain.len(),
    ensures
        ({
            let (p, c) = s.locate(s.cross_chain[at].product_id, s.cross_chain[at].claim_id)->0;
            (PalletView {
                cross_chain: s.cross_chain.remove(at),
                ..s.settle(p, c, status, verifier, verified_at)
            }).consistent()
        }),
{
    let entry = s.cross_chain[at];
    assert(s.awaits(entry.product_id, entry.claim_id, true));
    lemma_locate(s, entry.product_id, entry.claim_id);
    let (p, c) = s.locate(entry.product_id, entry.claim_id)->0;
    let settled = s.settle(p, c, status, verifier, verified_at);
    let t = PalletView { cross_chain: s.cross_chain.remove(at), ..settled };
    lemma_settle_differs_at(s, p, c, status, verifier, verified_at);
    lemma_remove_cross_chain(s.cross_chain, at);
    assert forall|e: int| 0 <= e < t.cross_chain.len() implies {
        &&& s.awaits((#[trigger] t.cross_chain[e]).product_id, t.cross_chain[e].claim_id, true)
        &&& s.locate(t.cross_chain[e].product_id, t.cross_chain[e].claim_id) != Some((p, c))
    } by {
        let from = if e < at {
            e
        } else {
            e + 1
        };
        assert(t.cross_chain[e] == s.cross_chain[from]);
        assert(s.awaits(s.cross_chain[from].product_id, s.cross_chain[from].claim_id, true));
        lemma_locate(s, t.cross_chain[e].product_id, t.cross_chain[e].claim_id);
    }
    assert forall|e: int| 0 <= e < t.pending.len() implies {
        &&& s.awaits((#[trigger] t.pending[e]).product_id, t.pending[e].claim_id, false)
        &&& s.locate(t.pending[e].product_id, t.pending[e].claim_id) != Some((p, c))
    } by {
        assert(t.pending[e] == s.pending[e]);
        assert(s.awaits(s.pending[e].product_id, s.pending[e].claim_id, false));
    }
    lemma_differs_at_consistent(s, t, p, c);
}

/// Nothing is settled where nothing changes.
pub proof fn lemma_nothing_settled(s: PalletView)
    ensures
        settles_only(s, s),
{
}

/// Settling after settling is settling.
pub proof fn lemma_settles_twice(a: PalletView, b: PalletView, c: PalletView)
    requires
        settles_only(a, b),
        settles_only(b, c),
    ensures
        settles_only(a, c),
{
    assert forall|p: int| 0 <= p < a.records.len() implies {
        &&& product_follows(a.records[p].product, (#[trigger] c.records[p]).product)
        &&& a.records[p].claims.len() <= c.records[p].claims.len()
    } by {
        assert(product_follows(a.records[p].product, b.records[p].product));
        assert(product_follows(b.records[p].product, c.records[p].product));
    }
    assert forall|p: int, d: int|
        0 <= p < a.records.len() && 0 <= d < a.records[p].claims.len() implies claim_kept(
        a.records[p].claims[d],
        #[trigger] c.records[p].claims[d],
    ) && a.records[p].claims[d].status.may_settle_as(c.records[p].claims[d].status) by {
        assert(product_follows(a.records[p].product, b.records[p].product));
        assert(claim_kept(a.records[p].claims[d], b.records[p].claims[d]));
        assert(claim_kept(b.records[p].claims[d], c.records[p].claims[d]));
        assert(a.records[p].claims[d].status.may_settle_as(b.records[p].claims[d].status));
        assert(b.records[p].claims[d].status.may_settle_as(c.records[p].claims[d].status));
    }
}

/// Settling is one way of moving forward.
pub proof fn lemma_settling_moves_forward(a: PalletView, b: PalletView)
    requires
        settles_only(a, b),
    ensures
        moves_forward(a, b),
{
    assert forall|p: int, d: int|
        0 <= p < a.records.len() && 0 <= d < a.records[p].claims.len()
        implies a.records[p].claims[d].status.may_become(
        #[trigger] b.records[p].claims[d].status,
    ) by {
        assert(a.records[p].claims[d].status.may_settle_as(b.records[p].claims[d].status));
    }
}

/// Where one pending claim got its verdict, nothing was done to the claims
/// but to settle.
pub proof fn lemma_settle_settles_only(
    s: PalletView,
    p: int,
    c: int,
    status: VerificationStatusView,
    verifier: Option<AccountId>,
    verified_at: Option<BlockNumber>,
    t: PalletView,
)
    requires
        0 <= p < s.records.len(),
        0 <= c < s.records[p].claims.len(),
        s.records[p].claims[c].status.may_settle_as(status),
        t.config == s.config,
        t.records == s.settle(p, c, status, verifier, verified_at).records,
    ensures
        settles_only(s, t),
{
    lemma_settle_differs_at(s, p, c, status, verifier, verified_at);
    let settled = s.settle(p, c, status, verifier, verified_at);
    assert forall|q: int, d: int|
        0 <= q < s.records.len() && 0 <= d < s.records[q].claims.len() implies claim_kept(
        s.records[q].claims[d],
        #[trigger] t.records[q].claims[d],
    ) && s.records[q].claims[d].status.may_settle_as(t.records[q].claims[d].status) by {
        if q == p && d == c {
        } else {
            assert(settled.records[q].claims[d] == s.records[q].claims[d]);
        }
    }
}

/// What examining a local entry leaves behind is consistent, and examining
/// it does nothing to the claims but to settle.
pub proof fn lemma_examine_pending<V: ClaimVerifier>(
    s: PalletView,
    verifier: V,
    now: BlockNumber,
    at: int,
)
    requires
        s.consistent(),
        0 <= at < s.pending.len(),
    ensures
        s.examine_pending(verifier, now, at).state.consistent(),
        settles_only(s, s.examine_pending(verifier, now, at).state),
        s.examine_pending(verifier, now, at).kept ==> s.examine_pending(verifier, now, at).state
            == s,
        !s.examine_pending(verifier, now, at).kept ==> s.examine_pending(
            verifier,
            now,
            at,
        ).state.pending == s.pending.remove(at),
        s.examine_pending(verifier, now, at).state.cross_chain == s.cross_chain,
{
    let entry = s.pending[at];
    assert(s.awaits(entry.product_id, entry.claim_id, false));
    lemma_locate(s, entry.product_id, entry.claim_id);
    let (p, c) = s.locate(entry.product_id, entry.claim_id)->0;
    let claim = s.records[p].claims[c];
    let after = s.examine_pending(verifier, now, at);
    if now >= entry.deadline {
        lemma_settle_pending_consistent(
            s,
            at,
            VerificationStatusView::TimedOut,
            claim.verifier,
            claim.verified_at,
        );
        lemma_settle_settles_only(
            s,
            p,
            c,
            VerificationStatusView::TimedOut,
            claim.verifier,
            claim.verified_at,
            after.state,
        );
    } else {
        match verifier.verdict(claim.claim) {
            VerificationResultView::Success => {
                let status = VerificationStatusView::Approved;
                lemma_settle_pending_consistent(s, at, status, None, Some(now));
                lemma_settle_settles_only(s, p, c, status, None, Some(now), after.state);
            },
            VerificationResultView::Failure(reason) => {
                let status = VerificationStatusView::Rejected(reason);
                lemma_settle_pending_consistent(s, at, status, None, Some(now));
                lemma_settle_settles_only(s, p, c, status, None, Some(now), after.state);
            },
            VerificationResultView::Pending => {
                lemma_nothing_settled(s);
            },
            VerificationResultView::Impossible => {
                let status = VerificationStatusView::Failed(crate::model::reason_impossible());
                lemma_settle_pending_consistent(s, at, status, None, Some(now));
                lemma_settle_settles_only(s, p, c, status, None, Some(now), after.state);
            },
        }
    }
}

/// What examining a cross-chain entry leaves behind is consistent, and
/// examining it does nothing to the claims but to settle.
pub proof fn lemma_examine_cross_chain(s: PalletView, now: BlockNumber, at: int)
    requires
        s.consistent(),
        0 <= at < s.cross_chain.len(),
    ensures
        s.examine_cross_chain(now, at).state.consistent(),
        settles_only(s, s.examine_cross_chain(now, at).state),
        s.examine_cross_chain(now, at).kept ==> s.examine_cross_chain(now, at).state == s,
        !s.examine_cross_chain(now, at).kept ==> s.examine_cross_chain(now, at).state.cross_chain
            == s.cross_chain.remove(at),
        s.examine_cross_chain(now, at).state.pending == s.pending,
{
    let entry = s.cross_chain[at];
    assert(s.awaits(entry.product_id, entry.claim_id, true));
    lemma_locate(s, entry.product_id, entry.claim_id);
    let (p, c) = s.locate(entry.product_id, entry.claim_id)->0;
    let claim = s.records[p].claims[c];
    let after = s.examine_cross_chain(now, at);
    if now >= entry.deadline {
        lemma_settle_cross_chain_consistent(
            s,
            at,
            VerificationStatusView::TimedOut,
            claim.verifier,
            claim.verified_at,
        );
        lemma_settle_settles_only(
            s,
            p,
            c,
            VerificationStatusView::TimedOut,
            claim.verifier,
            claim.verified_at,
            after.state,
        );
    } else {
        lemma_nothing_settled(s);
    }
}

/// What a sweep over the local entries leaves behind is consistent, the
/// sweep does nothing to the claims but to settle, and it examines no more
/// entries than its budget allows.
pub proof fn lemma_sweep_pending<V: ClaimVerifier>(
    s: PalletView,
    verifier: V,
    now: BlockNumber,
    at: int,
    budget: nat,
)
    requires
        s.consistent(),
    ensures
        s.sweep_pending(verifier, now, at, budget).state.consistent(),
        settles_only(s, s.sweep_pending(verifier, now, at, budget).state),
        s.sweep_pending(verifier, now, at, budget).examined <= budget,
        s.sweep_pending(verifier, now, at, budget).state.cross_chain == s.cross_chain,
    decreases budget,
{
    if budget == 0 || at < 0 || at >= s.pending.len() {
        lemma_nothing_settled(s);
    } else {
        let first = s.examine_pending(verifier, now, at);
        lemma_examine_pending(s, verifier, now, at);
        let next = if first.kept {
            at + 1
        } else {
            at
        };
        lemma_sweep_pending(first.state, verifier, now, next, (budget - 1) as nat);
        lemma_settles_twice(
            s,
            first.state,
            first.state.sweep_pending(verifier, now, next, (budget - 1) as nat).state,
        );
    }
}

/// What a sweep over the cross-chain entries leaves behind is consistent,
/// the sweep does nothing to the claims but to settle, and it examines no
/// more entries than its budget allows.
pub proof fn lemma_sweep_cross_chain(s: PalletView, now: BlockNumber, at: int, budget: nat)
    requires
        s.consistent(),
    ensures
        s.sweep_cross_chain(now, at, budget).state.consistent(),
        settles_only(s, s.sweep_cross_chain(now, at, budget).state),
        s.sweep_cross_chain(now, at, budget).examined <= budget,
        s.sweep_cross_chain(now, at, budget).state.pending == s.pending,
    decreases budget,
{
    if budget == 0 || at < 0 || at >= s.cross_chain.len() {
        lemma_nothing_settled(s);
    } else {
        let first = s.examine_cross_chain(now, at);
        lemma_examine_cross_chain(s, now, at);
        let next = if first.kept {
            at + 1
        } else {
            at
        };
        lemma_sweep_cross_chain(first.state, now, next, (budget - 1) as nat);
        lemma_settles_twice(
            s,
            first.state,
            first.state.sweep_cross_chain(now, next, (budget - 1) as nat).state,
        );
    }
}

/// What a scheduler tick leaves behind is consistent, the tick does nothing
/// to the claims but to settle, and it examines no more entries than the
/// configured limit allows.
pub proof fn lemma_tick<V: ClaimVerifier>(s: PalletView, verifier: V, now: BlockNumber)
    requires
        s.consistent(),
    ensures
        s.tick(verifier, now).state.consistent(),
        settles_only(s, s.tick(verifier, now).state),
        s.tick(verifier, now).examined <= s.config.verification_limit,
{
    let limit = s.config.verification_limit as nat;
    let local = s.sweep_pending(verifier, now, 0, limit);
    lemma_sweep_pending(s, verifier, now, 0, limit);
    let left = (s.config.verification_limit - local.examined) as nat;
    lemma_sweep_cross_chain(local.state, now, 0, left);
    lemma_settles_twice(s, local.state, local.state.sweep_cross_chain(now, 0, left).state);
}

/// Settling a claim by hand keeps the state consistent, and does nothing to
/// the claims but to settle.
pub proof fn lemma_verify_claim(
    s: PalletView,
    who: AccountId,
    product_id: Seq<u8>,
    claim_id: Seq<u8>,
    approved: bool,
    reason: Option<Seq<u8>>,
    now: BlockNumber,
)
    requires
        s.consistent(),
    ensures
        s.verify_claim(who, product_id, claim_id, approved, reason, now).state.consistent(),
        settles_only(s, s.verify_claim(who, product_id, claim_id, approved, reason, now).state),
{
    let step = s.verify_claim(who, product_id, claim_id, approved, reason, now);
    if step.outcome is Err {
        lemma_nothing_settled(s);
    } else {
        lemma_locate(s, product_id, claim_id);
        let p = s.product_index(product_id)->0;
        let c = s.claim_index(p, claim_id)->0;
        let status = if approved {
            VerificationStatusView::Approved
        } else {
            VerificationStatusView::Rejected(
                match reason {
                    Some(bytes) => bytes,
                    None => Seq::empty(),
                },
            )
        };
        let t = step.state;
        lemma_settle_differs_at(s, p, c, status, Some(who), Some(now));
        lemma_without_pending(s.pending, claim_id);
        lemma_without_cross_chain(s.cross_chain, claim_id);
        assert forall|e: int| 0 <= e < t.pending.len() implies {
            &&& s.awaits((#[trigger] t.pending[e]).product_id, t.pending[e].claim_id, false)
            &&& s.locate(t.pending[e].product_id, t.pending[e].claim_id) != Some((p, c))
        } by {
            let f = choose|f: int| 0 <= f < s.pending.len() && s.pending[f] == t.pending[e];
            assert(s.awaits(s.pending[f].product_id, s.pending[f].claim_id, false));
            lemma_locate(s, t.pending[e].product_id, t.pending[e].claim_id);
        }
        assert forall|e: int| 0 <= e < t.cross_chain.len() implies {
            &&& s.awaits((#[trigger] t.cross_chain[e]).product_id, t.cross_chain[e].claim_id, true)
            &&& s.locate(t.cross_chain[e].product_id, t.cross_chain[e].claim_id) != Some((p, c))
        } by {
            let f = choose|f: int|
                0 <= f < s.cross_chain.len() && s.cross_chain[f] == t.cross_chain[e];
            assert(s.awaits(s.cross_chain[f].product_id, s.cross_chain[f].claim_id, true));
            lemma_locate(s, t.cross_chain[e].product_id, t.cross_chain[e].claim_id);
        }
        lemma_differs_at_consistent(s, t, p, c);
        lemma_settle_settles_only(s, p, c, status, Some(who), Some(now), t);
    }
}

/// Revoking a claim keeps the state consistent and moves the claims forward.
pub proof fn lemma_revoke_claim(
    s: PalletView,
    who: AccountId,
    product_id: Seq<u8>,
    claim_id: Seq<u8>,
    reason: Seq<u8>,
)
    requires
        s.consistent(),
    ensures
        s.revoke_claim(who, product_id, claim_id, reason).state.consistent(),
        moves_forward(s, s.revoke_claim(who, product_id, claim_id, reason).state),
{
    let step = s.revoke_claim(who, product_id, claim_id, reason);
    if step.outcome is Err {
        lemma_nothing_settled(s);
        lemma_settling_moves_forward(s, s);
    } else {
        lemma_locate(s, product_id, claim_id);
        let p = s.product_index(product_id)->0;
        let c = s.claim_index(p, claim_id)->0;
        let t = step.state;
        assert(differs_at(s, t, p, c));
        assert forall|e: int| 0 <= e < t.pending.len() implies {
            &&& s.awaits((#[trigger] t.pending[e]).product_id, t.pending[e].claim_id, false)
            &&& s.locate(t.pending[e].product_id, t.pending[e].claim_id) != Some((p, c))
        } by {
            assert(s.awaits(s.pending[e].product_id, s.pending[e].claim_id, false));
        }
        assert forall|e: int| 0 <= e < t.cross_chain.len() implies {
            &&& s.awaits((#[trigger] t.cross_chain[e]).product_id, t.cross_chain[e].claim_id, true)
            &&& s.locate(t.cross_chain[e].product_id, t.cross_chain[e].claim_id) != Some((p, c))
        } by {
            assert(s.awaits(s.cross_chain[e].product_id, s.cross_chain[e].claim_id, true));
        }
        lemma_differs_at_consistent(s, t, p, c);
        assert forall|q: int, d: int|
            0 <= q < s.records.len() && 0 <= d < s.records[q].claims.len() implies claim_kept(
            s.records[q].claims[d],
            #[trigger] t.records[q].claims[d],
        ) && s.records[q].claims[d].status.may_become(t.records[q].claims[d].status) by {
            if q == p && d == c {
            } else {
                assert(t.records[q].claims[d] == s.records[q].claims[d]);
            }
        }
    }
}

/// A state with the product of one record replaced is consistent where
/// the product kept its name and its metadata is no longer than it may be.
pub proof fn lemma_with_product_consistent(s: PalletView, p: int, product: ProductView)
    requires
        s.consistent(),
        0 <= p < s.records.len(),
        product.id == s.records[p].product.id,
        product.metadata.len() <= MAX_METADATA_LENGTH,
    ensures
        s.with_product(p, product).consistent(),
{
    let t = s.with_product(p, product);
    assert(product_ids(t.records) =~= product_ids(s.records));
    assert forall|q: int| 0 <= q < t.records.len() implies #[trigger] t.record_in_order(q) by {
        assert(s.record_in_order(q));
        assert(t.records[q].claims == s.records[q].claims);
    }
    assert forall|product_id: Seq<u8>, claim_id: Seq<u8>, cross_chain: bool|
        s.awaits(product_id, claim_id, cross_chain) implies t.awaits(
        product_id,
        claim_id,
        cross_chain,
    ) by {
        lemma_locate(s, product_id, claim_id);
        let (q, d) = s.locate(product_id, claim_id)->0;
        assert(t.records[q].claims == s.records[q].claims);
    }
    assert forall|e: int| 0 <= e < t.pending.len() implies t.awaits(
        (#[trigger] t.pending[e]).product_id,
        t.pending[e].claim_id,
        false,
    ) by {
        assert(s.awaits(s.pending[e].product_id, s.pending[e].claim_id, false));
    }
    assert forall|e: int| 0 <= e < t.cross_chain.len() implies t.awaits(
        (#[trigger] t.cross_chain[e]).product_id,
        t.cross_chain[e].claim_id,
        true,
    ) by {
        assert(s.awaits(s.cross_chain[e].product_id, s.cross_chain[e].claim_id, true));
    }
}

/// Changing a product's record keeps the state consistent and leaves the
/// claims alone.
pub proof fn lemma_update_product_info(
    s: PalletView,
    who: AccountId,
    product_id: Seq<u8>,
    name: Option<Seq<u8>>,
    description: Option<Seq<u8>>,
    metadata: Option<Seq<u8>>,
)
    requires
        s.consistent(),
    ensures
        s.update_product_info(who, product_id, name, description, metadata).state.consistent(),
        settles_only(s, s.update_product_info(who, product_id, name, description, metadata).state),
{
    let step = s.update_product_info(who, product_id, name, description, metadata);
    if step.outcome is Err {
        lemma_nothing_settled(s);
    } else {
        lemma_locate(s, product_id, Seq::empty());
        lemma_position(product_ids(s.records), product_id);
        let p = s.product_index(product_id)->0;
        assert(s.record_in_order(p));
        lemma_with_product_consistent(
            s,
            p,
            crate::model::revised(s.records[p].product, name, description, metadata),
        );
    }
}

/// Deactivating a product keeps the state consistent and leaves the claims
/// alone.
pub proof fn lemma_deactivate_product(s: PalletView, who: AccountId, product_id: Seq<u8>)
    requires
        s.consistent(),
    ensures
        s.deactivate_product(who, product_id).state.consistent(),
        settles_only(s, s.deactivate_product(who, product_id).state),
{
    let step = s.deactivate_product(who, product_id);
    if step.outcome is Err {
        lemma_nothing_settled(s);
    } else {
        lemma_position(product_ids(s.records), product_id);
        let p = s.product_index(product_id)->0;
        assert(s.record_in_order(p));
        lemma_with_product_consistent(s, p, ProductView { active: false, ..s.records[p].product });
    }
}

/// Binding a key keeps distinct keys distinct.
pub proof fn lemma_bind_distinct<K, V>(pairs: Seq<(K, V)>, key: K, value: V)
    requires
        distinct(firsts(pairs)),
    ensures
        distinct(firsts(bind(pairs, key, value))),
{
    let keys = firsts(pairs);
    let bound = bind(pairs, key, value);
    lemma_position(keys, key);
    match position(keys, key) {
        Some(i) => {
            assert(firsts(bound) =~= keys);
        },
        None => {
            assert(firsts(bound) =~= keys.push(key));
            lemma_distinct_push(keys, key);
        },
    }
}

/// Setting a fee keeps the state consistent and leaves the claims alone.
pub proof fn lemma_update_verification_fee(
    s: PalletView,
    who: AccountId,
    claim_type: ClaimTypeView,
    new_fee: Balance,
)
    requires
        s.consistent(),
    ensures
        s.update_verification_fee(who, claim_type, new_fee).state.consistent(),
        settles_only(s, s.update_verification_fee(who, claim_type, new_fee).state),
{
    lemma_nothing_settled(s);
    let t = s.update_verification_fee(who, claim_type, new_fee).state;
    lemma_bind_distinct(s.fees, claim_type, new_fee);
    if s.is_admin(who) {
        assert forall|e: int| 0 <= e < t.pending.len() implies s.awaits(
            (#[trigger] t.pending[e]).product_id,
            t.pending[e].claim_id,
            false,
        ) by {
            assert(s.awaits(s.pending[e].product_id, s.pending[e].claim_id, false));
        }
        assert forall|e: int| 0 <= e < t.cross_chain.len() implies s.awaits(
            (#[trigger] t.cross_chain[e]).product_id,
            t.cross_chain[e].claim_id,
            true,
        ) by {
            assert(s.awaits(s.cross_chain[e].product_id, s.cross_chain[e].claim_id, true));
        }
        lemma_same_records_consistent(s, t);
    }
}

/// Naming a verifier keeps the state consistent and leaves the claims
/// alone.
pub proof fn lemma_set_verifier_authorization(
    s: PalletView,
    who: AccountId,
    verifier: AccountId,
    authorized: bool,
)
    requires
        s.consistent(),
    ensures
        s.set_verifier_authorization(who, verifier, authorized).state.consistent(),
        settles_only(s, s.set_verifier_authorization(who, verifier, authorized).state),
{
    lemma_nothing_settled(s);
    let t = s.set_verifier_authorization(who, verifier, authorized).state;
    lemma_bind_distinct(s.verifiers, verifier, authorized);
    if s.is_admin(who) {
        assert forall|e: int| 0 <= e < t.pending.len() implies s.awaits(
            (#[trigger] t.pending[e]).product_id,
            t.pending[e].claim_id,
            false,
        ) by {
            assert(s.awaits(s.pending[e].product_id, s.pending[e].claim_id, false));
        }
        assert forall|e: int| 0 <= e < t.cross_chain.len() implies s.awaits(
            (#[trigger] t.cross_chain[e]).product_id,
            t.cross_chain[e].claim_id,
            true,
        ) by {
            assert(s.awaits(s.cross_chain[e].product_id, s.cross_chain[e].claim_id, true));
        }
        lemma_same_records_consistent(s, t);
    }
}

/// Registering a product keeps the state consistent and leaves the claims
/// alone.
pub proof fn lemma_register_product(
    s: PalletView,
    who: AccountId,
    product_id: Seq<u8>,
    name: Seq<u8>,
    description: Seq<u8>,
    origin_country: Seq<u8>,
    hs_code: Seq<u8>,
    manufacture_date: u64,
    metadata: Seq<u8>,
    owner_did: Option<Seq<u8>>,
    now: BlockNumber,
)
    requires
        s.consistent(),
    ensures
        s.register_product(
            who,
            product_id,
            name,
            description,
            origin_country,
            hs_code,
            manufacture_date,
            metadata,
            owner_did,
            now,
        ).state.consistent(),
        settles_only(
            s,
            s.register_product(
                who,
                product_id,
                name,
                description,
                origin_country,
                hs_code,
                manufacture_date,
                metadata,
                owner_did,
                now,
            ).state,
        ),
{
    let step = s.register_product(
        who,
        product_id,
        name,
        description,
        origin_country,
        hs_code,
        manufacture_date,
        metadata,
        owner_did,
        now,
    );
    if step.outcome is Err {
        lemma_nothing_settled(s);
    } else {
        let t = step.state;
        let ids = product_ids(s.records);
        lemma_position(ids, product_id);
        assert(product_ids(t.records) =~= ids.push(product_id));
        lemma_distinct_push(ids, product_id);
        assert forall|q: int| 0 <= q < t.records.len() implies #[trigger] t.record_in_order(q) by {
            if q < s.records.len() {
                assert(s.record_in_order(q));
                assert(t.records[q] == s.records[q]);
            } else {
                assert(claim_ids(t.records[q].claims) =~= Seq::empty());
            }
        }
        assert forall|pid: Seq<u8>, cid: Seq<u8>, cross_chain: bool|
            s.awaits(pid, cid, cross_chain) implies t.awaits(pid, cid, cross_chain) by {
            lemma_locate(s, pid, cid);
            lemma_position_push(ids, product_id, pid);
            let (q, d) = s.locate(pid, cid)->0;
            assert(t.records[q] == s.records[q]);
        }
        assert forall|e: int| 0 <= e < t.pending.len() implies t.awaits(
            (#[trigger] t.pending[e]).product_id,
            t.pending[e].claim_id,
            false,
        ) by {
            assert(s.awaits(s.pending[e].product_id, s.pending[e].claim_id, false));
        }
        assert forall|e: int| 0 <= e < t.cross_chain.len() implies t.awaits(
            (#[trigger] t.cross_chain[e]).product_id,
            t.cross_chain[e].claim_id,
            true,
        ) by {
            assert(s.awaits(s.cross_chain[e].product_id, s.cross_chain[e].claim_id, true));
        }
        assert forall|q: int, d: int|
            0 <= q < s.records.len() && 0 <= d < s.records[q].claims.len() implies claim_kept(
            s.records[q].claims[d],
            #[trigger] t.records[q].claims[d],
        ) && s.records[q].claims[d].status.may_settle_as(t.records[q].claims[d].status) by {
            assert(t.records[q] == s.records[q]);
        }
        assert forall|q: int| 0 <= q < s.records.len() implies {
            &&& product_follows(s.records[q].product, (#[trigger] t.records[q]).product)
            &&& s.records[q].claims.len() <= t.records[q].claims.len()
        } by {
            assert(t.records[q] == s.records[q]);
        }
    }
}

/// Handing in a claim keeps the state consistent and leaves the claims
/// before it alone.
pub proof fn lemma_submit(
    s: PalletView,
    who: AccountId,
    product_id: Seq<u8>,
    claim: ZkClaimView,
    claim_id: Seq<u8>,
    para_id: Option<u32>,
    now: BlockNumber,
    sent: bool,
    reserved: bool,
)
    requires
        s.consistent(),
    ensures
        s.submit(who, product_id, claim, claim_id, para_id, now, sent, reserved).state.consistent(),
        settles_only(
            s,
            s.submit(who, product_id, claim, claim_id, para_id, now, sent, reserved).state,
        ),
{
    let step = s.submit(who, product_id, claim, claim_id, para_id, now, sent, reserved);
    if step.outcome is Err {
        lemma_nothing_settled(s);
    } else {
        let t = step.state;
        let ids = product_ids(s.records);
        lemma_position(ids, product_id);
        let p = s.product_index(product_id)->0;
        let names = claim_ids(s.records[p].claims);
        lemma_position(names, claim_id);
        let entered = t.records[p].claims[s.records[p].claims.len() as int];
        assert(entered.claim_id == claim_id);
        assert(product_ids(t.records) =~= ids);
        assert(claim_ids(t.records[p].claims) =~= names.push(claim_id));
        assert(s.record_in_order(p));
        lemma_distinct_push(names, claim_id);
        assert forall|q: int| 0 <= q < t.records.len() implies #[trigger] t.record_in_order(q) by {
            assert(s.record_in_order(q));
            if q == p {
                assert forall|d: int| 0 <= d < t.records[q].claims.len() implies (
                #[trigger] t.records[q].claims[d]).is_cross_chain
                    == t.records[q].claims[d].source_para_id.is_some() by {
                    if d < s.records[q].claims.len() {
                        assert(t.records[q].claims[d] == s.records[q].claims[d]);
                        assert(s.records[q].claims[d].is_cross_chain
                            == s.records[q].claims[d].source_para_id.is_some());
                    }
                }
            } else {
                assert(t.records[q] == s.records[q]);
            }
        }
        assert forall|pid: Seq<u8>, cid: Seq<u8>, cross_chain: bool|
            s.awaits(pid, cid, cross_chain) implies t.awaits(pid, cid, cross_chain) by {
            lemma_locate(s, pid, cid);
            let (q, d) = s.locate(pid, cid)->0;
            if q == p {
                lemma_position_push(names, claim_id, cid);
                assert(t.records[q].claims[d] == s.records[q].claims[d]);
            } else {
                assert(t.records[q] == s.records[q]);
            }
        }
        lemma_position_push(names, claim_id, claim_id);
        assert(t.awaits(product_id, claim_id, para_id is Some));
        lemma_without_pending(s.pending, claim_id);
        lemma_without_cross_chain(s.cross_chain, claim_id);
        match para_id {
            None => {
                let left = without_pending(s.pending, claim_id);
                assert(pending_ids(t.pending) =~= pending_ids(left).push(claim_id));
                assert forall|j: int| 0 <= j < left.len() implies pending_ids(left)[j]
                    != claim_id by {
                    assert(left[j].claim_id != claim_id);
                }
                lemma_distinct_push(pending_ids(left), claim_id);
                assert forall|e: int| 0 <= e < t.pending.len() implies t.awaits(
                    (#[trigger] t.pending[e]).product_id,
                    t.pending[e].claim_id,
                    false,
                ) by {
                    if e < left.len() {
                        assert(t.pending[e] == left[e]);
                        let f = choose|f: int| 0 <= f < s.pending.len() && s.pending[f] == left[e];
                        assert(s.awaits(s.pending[f].product_id, s.pending[f].claim_id, false));
                    }
                }
                assert forall|e: int| 0 <= e < t.cross_chain.len() implies t.awaits(
                    (#[trigger] t.cross_chain[e]).product_id,
                    t.cross_chain[e].claim_id,
                    true,
                ) by {
                    assert(s.awaits(s.cross_chain[e].product_id, s.cross_chain[e].claim_id, true));
                }
            },
            Some(para) => {
                let left = without_cross_chain(s.cross_chain, claim_id);
                assert(cross_chain_ids(t.cross_chain) =~= cross_chain_ids(left).push(claim_id));
                assert forall|j: int| 0 <= j < left.len() implies cross_chain_ids(left)[j]
                    != claim_id by {
                    assert(left[j].claim_id != claim_id);
                }
                lemma_distinct_push(cross_chain_ids(left), claim_id);
                assert forall|e: int| 0 <= e < t.cross_chain.len() implies t.awaits(
                    (#[trigger] t.cross_chain[e]).product_id,
                    t.cross_chain[e].claim_id,
                    true,
                ) by {
                    if e < left.len() {
                        assert(t.cross_chain[e] == left[e]);
                        let f = choose|f: int|
                            0 <= f < s.cross_chain.len() && s.cross_chain[f] == left[e];
                        assert(s.awaits(
                            s.cross_chain[f].product_id,
                            s.cross_chain[f].claim_id,
                            true,
                        ));
                    }
                }
                assert forall|e: int| 0 <= e < t.pending.len() implies t.awaits(
                    (#[trigger] t.pending[e]).product_id,
                    t.pending[e].claim_id,
                    false,
                ) by {
                    assert(s.awaits(s.pending[e].product_id, s.pending[e].claim_id, false));
                }
            },
        }
        assert forall|q: int, d: int|
            0 <= q < s.records.len() && 0 <= d < s.records[q].claims.len() implies claim_kept(
            s.records[q].claims[d],
            #[trigger] t.records[q].claims[d],
        ) && s.records[q].claims[d].status.may_settle_as(t.records[q].claims[d].status) by {
            if q == p {
                assert(t.records[q].claims[d] == s.records[q].claims[d]);
            } else {
                assert(t.records[q] == s.records[q]);
            }
        }
        assert forall|q: int| 0 <= q < s.records.len() implies {
            &&& product_follows(s.records[q].product, (#[trigger] t.records[q]).product)
            &&& s.records[q].claims.len() <= t.records[q].claims.len()
        } by {
            if q == p {
            } else {
                assert(t.records[q] == s.records[q]);
            }
        }
    }
}

/// Taking in a message of a counterparty chain keeps the state consistent,
/// and does nothing to the claims but to settle.
pub proof fn lemma_handle_cross_chain_message(
    s: PalletView,
    para_id: u32,
    message: CrossChainMessageView,
    now: BlockNumber,
)
    requires
        s.consistent(),
    ensures
        s.handle_cross_chain_message(para_id, message, now).state.consistent(),
        settles_only(s, s.handle_cross_chain_message(para_id, message, now).state),
{
    let t = s.handle_cross_chain_message(para_id, message, now).state;
    lemma_nothing_settled(s);
    if let CrossChainMessageView::VerificationResponse { claim_id, result } = message {
        lemma_position(cross_chain_ids(s.cross_chain), claim_id);
        if let Some(at) = position(cross_chain_ids(s.cross_chain), claim_id) {
            let entry = s.cross_chain[at];
            assert(entry.claim_id == claim_id);
            assert(s.awaits(entry.product_id, entry.claim_id, true));
            lemma_locate(s, entry.product_id, claim_id);
            let (p, c) = s.locate(entry.product_id, claim_id)->0;
            let claim = s.records[p].claims[c];
            match result {
                VerificationResultView::Success => {
                    let status = VerificationStatusView::Approved;
                    lemma_settle_cross_chain_consistent(s, at, status, claim.verifier, Some(now));
                    lemma_settle_settles_only(s, p, c, status, claim.verifier, Some(now), t);
                },
                VerificationResultView::Failure(reason) => {
                    let status = VerificationStatusView::Rejected(reason);
                    lemma_settle_cross_chain_consistent(s, at, status, claim.verifier, Some(now));
                    lemma_settle_settles_only(s, p, c, status, claim.verifier, Some(now), t);
                },
                VerificationResultView::Impossible => {
                    let status = VerificationStatusView::Failed(
                        crate::model::reason_cross_chain_impossible(),
                    );
                    lemma_settle_cross_chain_consistent(s, at, status, claim.verifier, Some(now));
                    lemma_settle_settles_only(s, p, c, status, claim.verifier, Some(now), t);
                },
                VerificationResultView::Pending => {
                    let left = s.cross_chain.remove(at);
                    lemma_remove_cross_chain(s.cross_chain, at);
                    assert(cross_chain_ids(t.cross_chain) =~= cross_chain_ids(left).push(claim_id));
                    assert forall|j: int| 0 <= j < left.len() implies cross_chain_ids(left)[j]
                        != claim_id by {
                        assert(left[j].claim_id != claim_id);
                    }
                    lemma_distinct_push(cross_chain_ids(left), claim_id);
                    assert forall|e: int| 0 <= e < t.cross_chain.len() implies s.awaits(
                        (#[trigger] t.cross_chain[e]).product_id,
                        t.cross_chain[e].claim_id,
                        true,
                    ) by {
                        if e < left.len() {
                            let from = if e < at {
                                e
                            } else {
                                e + 1
                            };
                            assert(t.cross_chain[e] == left[e]);
                            assert(left[e] == s.cross_chain[from]);
                            assert(s.awaits(
                                s.cross_chain[from].product_id,
                                s.cross_chain[from].claim_id,
                                true,
                            ));
                        }
                    }
                    assert forall|e: int| 0 <= e < t.pending.len() implies s.awaits(
                        (#[trigger] t.pending[e]).product_id,
                        t.pending[e].claim_id,
                        false,
                    ) by {
                        assert(s.awaits(s.pending[e].product_id, s.pending[e].claim_id, false));
                    }
                    lemma_same_records_consistent(s, t);
                },
            }
        }
    }
}

/// Binding keys one after another to nothing but distinct keys gives
/// distinct keys.
pub proof fn lemma_bind_all_distinct<K, V>(pairs: Seq<(K, V)>, more: Seq<(K, V)>)
    requires
        distinct(firsts(pairs)),
    ensures
        distinct(firsts(bind_all(pairs, more))),
    decreases more.len(),
{
    if more.len() > 0 {
        lemma_bind_all_distinct(pairs, more.drop_last());
        lemma_bind_distinct(bind_all(pairs, more.drop_last()), more.last().0, more.last().1);
    }
}

/// A pallet starts in a consistent state.
pub proof fn lemma_genesis(
    config: Config,
    verifiers: Seq<(AccountId, bool)>,
    fees: Seq<(ClaimTypeView, Balance)>,
)
    ensures
        PalletView::genesis(config, verifiers, fees).consistent(),
{
    let s = PalletView::genesis(config, verifiers, fees);
    assert(firsts(Seq::<(ClaimTypeView, Balance)>::empty()) =~= Seq::empty());
    assert(firsts(Seq::<(AccountId, bool)>::empty()) =~= Seq::empty());
    lemma_bind_all_distinct(Seq::empty(), fees);
    lemma_bind_all_distinct(Seq::empty(), verifiers);
    let listed = bind_all(Seq::empty(), fees);
    lemma_position(firsts(listed), ClaimTypeView::OriginCountry);
    if position(firsts(listed), ClaimTypeView::OriginCountry) is None {
        assert(firsts(listed.push((ClaimTypeView::OriginCountry, config.verification_fee)))
            =~= firsts(listed).push(ClaimTypeView::OriginCountry));
        lemma_distinct_push(firsts(listed), ClaimTypeView::OriginCountry);
    }
    assert(product_ids(s.records) =~= Seq::empty());
    assert(pending_ids(s.pending) =~= Seq::empty());
    assert(cross_chain_ids(s.cross_chain) =~= Seq::empty());
}

} // verus!
