//! The pallet's storage: what it holds, and the small steps that read and
//! change it. Everything else is built from these steps.
use crate::bounded::{
    claim_views, claims_get, claims_get_mut, claims_held, claims_len, claims_try_push,
    optional_metadata, Claims, Metadata, MAX_CLAIMS_PER_PRODUCT,
};
use crate::keys::{
    bytes_eq, lemma_position_absent, lemma_position_found, optional_bytes, position, AccountId,
    Balance, BlockNumber,
};
use crate::model::{
    bind, claim_ids, cross_chain_ids, firsts, pending_ids, product_ids, revised,
    without_cross_chain, without_pending, CrossChainView, PalletView, PendingView,
    ProductRecordView,
};
use crate::runtime_integration::ClaimType;
use crate::types::{
    Config, Product, ProductView, VerificationStatus, VerifiedClaim, VerifiedClaimView,
};
use vstd::prelude::*;

verus! {

/// A product with what the registry keeps about it.
pub struct ProductRecord {
    /// The product.
    pub product: Product,
    /// The owner's decentralized identifier, where one was given.
    pub owner_did: Option<Vec<u8>>,
    /// The product's claims, oldest first.
    pub claims: Claims,
}

impl View for ProductRecord {
    type V = ProductRecordView;

    open spec fn view(&self) -> ProductRecordView {
        ProductRecordView {
            product: self.product@,
            owner_did: match self.owner_did {
                Some(did) => Some(did@),
                None => None,
            },
            claims: claim_views(self.claims),
        }
    }
}

impl DeepView for ProductRecord {
    type V = ProductRecordView;

    open spec fn deep_view(&self) -> ProductRecordView {
        self@
    }
}

/// A local claim that waits for the scheduler.
pub struct PendingVerification {
    /// The claim that waits.
    pub claim_id: Vec<u8>,
    /// The product the claim is about.
    pub product_id: Vec<u8>,
    /// The first tick at which the claim has timed out.
    pub deadline: BlockNumber,
}

impl View for PendingVerification {
    type V = PendingView;

    open spec fn view(&self) -> PendingView {
        PendingView {
            claim_id: self.claim_id@,
            product_id: self.product_id@,
            deadline: self.deadline,
        }
    }
}

impl DeepView for PendingVerification {
    type V = PendingView;

    open spec fn deep_view(&self) -> PendingView {
        self@
    }
}

/// A claim that waits for the answer of a counterparty chain.
pub struct CrossChainVerification {
    /// The claim that waits.
    pub claim_id: Vec<u8>,
    /// The counterparty chain that was asked.
    pub para_id: u32,
    /// The product the claim is about.
    pub product_id: Vec<u8>,
    /// The first tick at which the claim has timed out.
    pub deadline: BlockNumber,
}

impl View for CrossChainVerification {
    type V = CrossChainView;

    open spec fn view(&self) -> CrossChainView {
        CrossChainView {
            claim_id: self.claim_id@,
            para_id: self.para_id,
            product_id: self.product_id@,
            deadline: self.deadline,
        }
    }
}

impl DeepView for CrossChainVerification {
    type V = CrossChainView;

    open spec fn deep_view(&self) -> CrossChainView {
        self@
    }
}

/// The origin verifier: products, their claims, the claims that wait, the
/// fee schedule and the verifiers.
pub struct Pallet {
    config: Config,
    records: Vec<ProductRecord>,
    pending: Vec<PendingVerification>,
    cross_chain: Vec<CrossChainVerification>,
    fees: Vec<(ClaimType, Balance)>,
    verifiers: Vec<(AccountId, bool)>,
}

impl View for Pallet {
    type V = PalletView;

    closed spec fn view(&self) -> PalletView {
        PalletView {
            config: self.config,
            records: self.records.deep_view(),
            pending: self.pending.deep_view(),
            cross_chain: self.cross_chain.deep_view(),
            fees: self.fees.deep_view(),
            verifiers: self.verifiers.deep_view(),
        }
    }
}

impl Pallet {
    /// Whether the pallet is well formed. It starts so, and every operation
    /// keeps it so.
    pub open spec fn wf(&self) -> bool {
        self@.wf()
    }

    /// A pallet with nothing in it.
    pub(crate) fn empty(config: Config) -> (pallet: Pallet)
        ensures
            pallet@ == (PalletView {
                config,
                records: Seq::empty(),
                pending: Seq::empty(),
                cross_chain: Seq::empty(),
                fees: Seq::empty(),
                verifiers: Seq::empty(),
            }),
    {
        let pallet = Pallet {
            config,
            records: Vec::new(),
            pending: Vec::new(),
            cross_chain: Vec::new(),
            fees: Vec::new(),
            verifiers: Vec::new(),
        };
        assert(pallet.records.deep_view() =~= Seq::empty());
        assert(pallet.pending.deep_view() =~= Seq::empty());
        assert(pallet.cross_chain.deep_view() =~= Seq::empty());
        assert(pallet.fees.deep_view() =~= Seq::empty());
        assert(pallet.verifiers.deep_view() =~= Seq::empty());
        pallet
    }

    /// The fixed parameters of the pallet.
    pub fn config(&self) -> (config: Config)
        ensures
            config == self@.config,
    {
        self.config
    }

    /// Where the product of that name stands.
    pub(crate) fn find_product(&self, product_id: &Vec<u8>) -> (found: Option<usize>)
        ensures
            match found {
                Some(p) => self@.product_index(product_id@) == Some(p as int) && p
                    < self@.records.len(),
                None => self@.product_index(product_id@) is None,
            },
    {
        let ghost ids = product_ids(self@.records);
        let mut p: usize = 0;
        while p < self.records.len()
            invariant
                p <= self.records.len(),
                ids == product_ids(self@.records),
                ids.len() == self.records.len(),
                forall|j: int| 0 <= j < p ==> ids[j] != product_id@,
            decreases self.records.len() - p,
        {
            if bytes_eq(&self.records[p].product.id, product_id) {
                proof {
                    lemma_position_found(ids, product_id@, p as int);
                }
                return Some(p);
            }
            p += 1;
        }
        proof {
            lemma_position_absent(ids, product_id@);
        }
        None
    }

    /// The product of record `p`.
    pub(crate) fn product(&self, p: usize) -> (product: &Product)
        requires
            p < self@.records.len(),
        ensures
            product@ == self@.records[p as int].product,
    {
        &self.records[p].product
    }

    /// The owner's identifier kept with record `p`.
    pub(crate) fn owner_did(&self, p: usize) -> (did: &Option<Vec<u8>>)
        requires
            p < self@.records.len(),
        ensures
            optional_bytes(*did) == self@.records[p as int].owner_did,
    {
        &self.records[p].owner_did
    }

    /// How many claims product `p` holds.
    pub(crate) fn claim_count(&self, p: usize) -> (count: usize)
        requires
            p < self@.records.len(),
        ensures
            count == self@.records[p as int].claims.len(),
    {
        claims_len(&self.records[p].claims)
    }

    /// Where the claim of that name stands among the claims of product `p`.
    pub(crate) fn find_claim(&self, p: usize, claim_id: &Vec<u8>) -> (found: Option<usize>)
        requires
            p < self@.records.len(),
        ensures
            match found {
                Some(c) => self@.claim_index(p as int, claim_id@) == Some(c as int) && c
                    < self@.records[p as int].claims.len(),
                None => self@.claim_index(p as int, claim_id@) is None,
            },
    {
        let claims = &self.records[p].claims;
        let ghost ids = claim_ids(self@.records[p as int].claims);
        let count = claims_len(claims);
        let mut c: usize = 0;
        while c < count
            invariant
                c <= count,
                count == claims_held(*claims).len(),
                p < self@.records.len(),
                self@.records[p as int].claims == claim_views(*claims),
                ids == claim_ids(claim_views(*claims)),
                forall|j: int| 0 <= j < c ==> ids[j] != claim_id@,
            decreases count - c,
        {
            if bytes_eq(&claims_get(claims, c).claim_id, claim_id) {
                proof {
                    lemma_position_found(ids, claim_id@, c as int);
                }
                return Some(c);
            }
            c += 1;
        }
        proof {
            lemma_position_absent(ids, claim_id@);
        }
        None
    }

    /// The claims of product `p`.
    pub(crate) fn claims(&self, p: usize) -> (claims: &Claims)
        requires
            p < self@.records.len(),
        ensures
            claim_views(*claims) == self@.records[p as int].claims,
    {
        &self.records[p].claims
    }

    /// Claim `c` of product `p`.
    pub(crate) fn claim(&self, p: usize, c: usize) -> (claim: &VerifiedClaim)
        requires
            p < self@.records.len(),
            c < self@.records[p as int].claims.len(),
        ensures
            claim@ == self@.records[p as int].claims[c as int],
    {
        claims_get(&self.records[p].claims, c)
    }

    /// How many local claims wait.
    pub(crate) fn pending_count(&self) -> (count: usize)
        ensures
            count == self@.pending.len(),
    {
        self.pending.len()
    }

    /// The local entry at `at`.
    pub(crate) fn pending_entry(&self, at: usize) -> (entry: &PendingVerification)
        requires
            at < self@.pending.len(),
        ensures
            entry@ == self@.pending[at as int],
    {
        &self.pending[at]
    }

    /// Where the local entry of that claim stands.
    pub(crate) fn find_pending(&self, claim_id: &Vec<u8>) -> (found: Option<usize>)
        ensures
            match found {
                Some(e) => position(pending_ids(self@.pending), claim_id@) == Some(e as int) && e
                    < self@.pending.len(),
                None => position(pending_ids(self@.pending), claim_id@) is None,
            },
    {
        let ghost ids = pending_ids(self@.pending);
        let mut e: usize = 0;
        while e < self.pending.len()
            invariant
                e <= self.pending.len(),
                ids == pending_ids(self@.pending),
                ids.len() == self.pending.len(),
                forall|j: int| 0 <= j < e ==> ids[j] != claim_id@,
            decreases self.pending.len() - e,
        {
            if bytes_eq(&self.pending[e].claim_id, claim_id) {
                proof {
                    lemma_position_found(ids, claim_id@, e as int);
                }
                return Some(e);
            }
            e += 1;
        }
        proof {
            lemma_position_absent(ids, claim_id@);
        }
        None
    }

    /// How many cross-chain claims wait.
    pub(crate) fn cross_chain_count(&self) -> (count: usize)
        ensures
            count == self@.cross_chain.len(),
    {
        self.cross_chain.len()
    }

    /// The cross-chain entry at `at`.
    pub(crate) fn cross_chain_entry(&self, at: usize) -> (entry: &CrossChainVerification)
        requires
            at < self@.cross_chain.len(),
        ensures
            entry@ == self@.cross_chain[at as int],
    {
        &self.cross_chain[at]
    }

    /// Where the cross-chain entry of that claim stands.
    pub(crate) fn find_cross_chain(&self, claim_id: &Vec<u8>) -> (found: Option<usize>)
        ensures
            match found {
                Some(e) => position(cross_chain_ids(self@.cross_chain), claim_id@) == Some(
                    e as int,
                ) && e < self@.cross_chain.len(),
                None => position(cross_chain_ids(self@.cross_chain), claim_id@) is None,
            },
    {
        let ghost ids = cross_chain_ids(self@.cross_chain);
        let mut e: usize = 0;
        while e < self.cross_chain.len()
            invariant
                e <= self.cross_chain.len(),
                ids == cross_chain_ids(self@.cross_chain),
                ids.len() == self.cross_chain.len(),
                forall|j: int| 0 <= j < e ==> ids[j] != claim_id@,
            decreases self.cross_chain.len() - e,
        {
            if bytes_eq(&self.cross_chain[e].claim_id, claim_id) {
                proof {
                    lemma_position_found(ids, claim_id@, e as int);
                }
                return Some(e);
            }
            e += 1;
        }
        proof {
            lemma_position_absent(ids, claim_id@);
        }
        None
    }

    /// Where the fee of that claim type stands in the schedule.
    fn find_fee(&self, claim_type: &ClaimType) -> (found: Option<usize>)
        ensures
            match found {
                Some(i) => position(firsts(self@.fees), claim_type@) == Some(i as int) && i
                    < self@.fees.len(),
                None => position(firsts(self@.fees), claim_type@) is None,
            },
    {
        let ghost types = firsts(self@.fees);
        let mut i: usize = 0;
        while i < self.fees.len()
            invariant
                i <= self.fees.len(),
                types == firsts(self@.fees),
                types.len() == self.fees.len(),
                forall|j: int| 0 <= j < i ==> types[j] != claim_type@,
            decreases self.fees.len() - i,
        {
            if self.fees[i].0.same_as(claim_type) {
                proof {
                    lemma_position_found(types, claim_type@, i as int);
                }
                return Some(i);
            }
            i += 1;
        }
        proof {
            lemma_position_absent(types, claim_type@);
        }
        None
    }

    /// Whether the schedule lists a fee for that claim type.
    pub(crate) fn has_fee(&self, claim_type: &ClaimType) -> (listed: bool)
        ensures
            listed == (position(firsts(self@.fees), claim_type@) is Some),
    {
        self.find_fee(claim_type).is_some()
    }

    /// The scheduled fee for a claim type.
    pub(crate) fn scheduled_fee(&self, claim_type: &ClaimType) -> (fee: Balance)
        ensures
            fee == self@.fee(claim_type@),
    {
        match self.find_fee(claim_type) {
            Some(i) => {
                self.fees[i].1
            },
            None => 0,
        }
    }

    /// Where the account stands among the verifiers.
    fn find_verifier(&self, account: AccountId) -> (found: Option<usize>)
        ensures
            match found {
                Some(i) => position(firsts(self@.verifiers), account) == Some(i as int) && i
                    < self@.verifiers.len(),
                None => position(firsts(self@.verifiers), account) is None,
            },
    {
        let ghost accounts = firsts(self@.verifiers);
        let mut i: usize = 0;
        while i < self.verifiers.len()
            invariant
                i <= self.verifiers.len(),
                accounts == firsts(self@.verifiers),
                accounts.len() == self.verifiers.len(),
                forall|j: int| 0 <= j < i ==> accounts[j] != account,
            decreases self.verifiers.len() - i,
        {
            if self.verifiers[i].0 == account {
                proof {
                    lemma_position_found(accounts, account, i as int);
                }
                return Some(i);
            }
            i += 1;
        }
        proof {
            lemma_position_absent(accounts, account);
        }
        None
    }

    /// Whether the account is named as a verifier.
    pub(crate) fn is_authorized(&self, account: AccountId) -> (authorized: bool)
        ensures
            authorized == self@.is_authorized(account),
    {
        match self.find_verifier(account) {
            Some(i) => {
                self.verifiers[i].1
            },
            None => false,
        }
    }

    /// Adds a record at the end.
    pub(crate) fn push_record(&mut self, record: ProductRecord)
        ensures
            final(self)@ == (PalletView {
                records: old(self)@.records.push(record@),
                ..old(self)@
            }),
    {
        self.records.push(record);
        assert(self.records.deep_view() =~= old(self).records.deep_view().push(record@));
    }

    /// Adds a claim at the end of the claims of product `p`, which holds
    /// fewer claims than it can.
    pub(crate) fn push_claim(&mut self, p: usize, claim: VerifiedClaim)
        requires
            p < old(self)@.records.len(),
            old(self)@.records[p as int].claims.len() < MAX_CLAIMS_PER_PRODUCT,
        ensures
            final(self)@ == old(self)@.with_record(
                p as int,
                ProductRecordView {
                    claims: old(self)@.records[p as int].claims.push(claim@),
                    ..old(self)@.records[p as int]
                },
            ),
    {
        let _ = claims_try_push(&mut self.records[p].claims, claim);
        proof {
            let before = old(self).records[p as int];
            let after = self.records[p as int];
            assert(claim_views(after.claims) =~= claim_views(before.claims).push(claim@));
            assert(self.records.deep_view() =~= old(self).records.deep_view().update(
                p as int,
                ProductRecordView { claims: claim_views(before.claims).push(claim@), ..before@ },
            ));
        }
    }

    /// Sets the origin flag of product `p`.
    pub(crate) fn set_origin_flag(&mut self, p: usize, verified: bool)
        requires
            p < old(self)@.records.len(),
        ensures
            final(self)@ == old(self)@.with_origin_flag(p as int, verified),
    {
        self.records[p].product.origin_verified = verified;
        proof {
            let before = old(self).records[p as int];
            assert(self.records.deep_view() =~= old(self).records.deep_view().update(
                p as int,
                ProductRecordView {
                    product: ProductView { origin_verified: verified, ..before@.product },
                    ..before@
                },
            ));
        }
    }

    /// Gives claim `c` of product `p` a new status and leaves the rest of
    /// the claim as it is.
    pub(crate) fn set_status(&mut self, p: usize, c: usize, status: VerificationStatus)
        requires
            p < old(self)@.records.len(),
            c < old(self)@.records[p as int].claims.len(),
        ensures
            final(self)@ == old(self)@.with_claim(
                p as int,
                c as int,
                VerifiedClaimView { status: status@, ..old(self)@.records[p as int].claims[c as int] },
            ),
    {
        let claim = claims_get_mut(&mut self.records[p].claims, c);
        claim.status = status;
        proof {
            let before = old(self).records[p as int];
            let after = self.records[p as int];
            let changed = VerifiedClaimView { status: status@, ..before@.claims[c as int] };
            assert(claim_views(after.claims) =~= claim_views(before.claims).update(
                c as int,
                changed,
            ));
            assert(self.records.deep_view() =~= old(self).records.deep_view().update(
                p as int,
                ProductRecordView {
                    claims: claim_views(before.claims).update(c as int, changed),
                    ..before@
                },
            ));
        }
    }

    /// Settles claim `c` of product `p`.
    pub(crate) fn settle(
        &mut self,
        p: usize,
        c: usize,
        status: VerificationStatus,
        verifier: Option<AccountId>,
        verified_at: Option<BlockNumber>,
    )
        requires
            p < old(self)@.records.len(),
            c < old(self)@.records[p as int].claims.len(),
        ensures
            final(self)@ == old(self)@.settle(p as int, c as int, status@, verifier, verified_at),
    {
        let sets_flag = status.is_approved() && claims_get(
            &self.records[p].claims,
            c,
        ).claim.claim_type.is_origin_country();
        let claim = claims_get_mut(&mut self.records[p].claims, c);
        claim.status = status;
        claim.verifier = verifier;
        claim.verified_at = verified_at;
        proof {
            let before = old(self).records[p as int];
            let after = self.records[p as int];
            let changed = VerifiedClaimView {
                status: status@,
                verifier,
                verified_at,
                ..before@.claims[c as int]
            };
            assert(claim_views(after.claims) =~= claim_views(before.claims).update(
                c as int,
                changed,
            ));
            assert(self.records.deep_view() =~= old(self).records.deep_view().update(
                p as int,
                ProductRecordView {
                    claims: claim_views(before.claims).update(c as int, changed),
                    ..before@
                },
            ));
        }
        if sets_flag {
            self.set_origin_flag(p, true);
        }
    }

    /// Changes the name, the description and the metadata of product `p`,
    /// each where a new value is given.
    pub(crate) fn revise_product(
        &mut self,
        p: usize,
        name: Option<Vec<u8>>,
        description: Option<Vec<u8>>,
        metadata: Option<Metadata>,
    )
        requires
            p < old(self)@.records.len(),
        ensures
            final(self)@ == old(self)@.with_product(
                p as int,
                revised(
                    old(self)@.records[p as int].product,
                    optional_bytes(name),
                    optional_bytes(description),
                    optional_metadata(metadata),
                ),
            ),
    {
        let ghost revision = revised(
            old(self)@.records[p as int].product,
            optional_bytes(name),
            optional_bytes(description),
            optional_metadata(metadata),
        );
        if let Some(bytes) = name {
            self.records[p].product.name = bytes;
        }
        if let Some(bytes) = description {
            self.records[p].product.description = bytes;
        }
        if let Some(bytes) = metadata {
            self.records[p].product.metadata = bytes;
        }
        proof {
            let before = old(self).records[p as int];
            assert(self.records.deep_view() =~= old(self).records.deep_view().update(
                p as int,
                ProductRecordView { product: revision, ..before@ },
            ));
        }
    }

    /// Marks product `p` as inactive.
    pub(crate) fn retire_product(&mut self, p: usize)
        requires
            p < old(self)@.records.len(),
        ensures
            final(self)@ == old(self)@.with_product(
                p as int,
                ProductView { active: false, ..old(self)@.records[p as int].product },
            ),
    {
        self.records[p].product.active = false;
        proof {
            let before = old(self).records[p as int];
            assert(self.records.deep_view() =~= old(self).records.deep_view().update(
                p as int,
                ProductRecordView {
                    product: ProductView { active: false, ..before@.product },
                    ..before@
                },
            ));
        }
    }

    /// Removes the local entry at `at`.
    pub(crate) fn remove_pending_at(&mut self, at: usize)
        requires
            at < old(self)@.pending.len(),
        ensures
            final(self)@ == (PalletView {
                pending: old(self)@.pending.remove(at as int),
                ..old(self)@
            }),
    {
        let _ = self.pending.remove(at);
        assert(self.pending.deep_view() =~= old(self).pending.deep_view().remove(at as int));
    }

    /// Removes the local entry of that claim, if there is one.
    pub(crate) fn remove_pending(&mut self, claim_id: &Vec<u8>)
        ensures
            final(self)@ == (PalletView {
                pending: without_pending(old(self)@.pending, claim_id@),
                ..old(self)@
            }),
    {
        if let Some(at) = self.find_pending(claim_id) {
            self.remove_pending_at(at);
        }
    }

    /// Adds a local entry at the end.
    pub(crate) fn push_pending(&mut self, entry: PendingVerification)
        ensures
            final(self)@ == (PalletView {
                pending: old(self)@.pending.push(entry@),
                ..old(self)@
            }),
    {
        self.pending.push(entry);
        assert(self.pending.deep_view() =~= old(self).pending.deep_view().push(entry@));
    }

    /// Removes the cross-chain entry at `at`.
    pub(crate) fn remove_cross_chain_at(&mut self, at: usize)
        requires
            at < old(self)@.cross_chain.len(),
        ensures
            final(self)@ == (PalletView {
                cross_chain: old(self)@.cross_chain.remove(at as int),
                ..old(self)@
            }),
    {
        let _ = self.cross_chain.remove(at);
        assert(self.cross_chain.deep_view() =~= old(self).cross_chain.deep_view().remove(
            at as int,
        ));
    }

    /// Removes the cross-chain entry of that claim, if there is one.
    pub(crate) fn remove_cross_chain(&mut self, claim_id: &Vec<u8>)
        ensures
            final(self)@ == (PalletView {
                cross_chain: without_cross_chain(old(self)@.cross_chain, claim_id@),
                ..old(self)@
            }),
    {
        if let Some(at) = self.find_cross_chain(claim_id) {
            self.remove_cross_chain_at(at);
        }
    }

    /// Adds a cross-chain entry at the end.
    pub(crate) fn push_cross_chain(&mut self, entry: CrossChainVerification)
        ensures
            final(self)@ == (PalletView {
                cross_chain: old(self)@.cross_chain.push(entry@),
                ..old(self)@
            }),
    {
        self.cross_chain.push(entry);
        assert(self.cross_chain.deep_view() =~= old(self).cross_chain.deep_view().push(entry@));
    }

    /// Binds a claim type to a fee.
    pub(crate) fn bind_fee(&mut self, claim_type: ClaimType, fee: Balance)
        ensures
            final(self)@ == (PalletView {
                fees: bind(old(self)@.fees, claim_type@, fee),
                ..old(self)@
            }),
    {
        match self.find_fee(&claim_type) {
            Some(i) => {
                self.fees[i] = (claim_type, fee);
                assert(self.fees.deep_view() =~= old(self).fees.deep_view().update(
                    i as int,
                    (claim_type@, fee),
                ));
            },
            None => {
                self.fees.push((claim_type, fee));
                assert(self.fees.deep_view() =~= old(self).fees.deep_view().push(
                    (claim_type@, fee),
                ));
            },
        }
    }

    /// Binds an account to whether it is a verifier.
    pub(crate) fn bind_verifier(&mut self, account: AccountId, authorized: bool)
        ensures
            final(self)@ == (PalletView {
                verifiers: bind(old(self)@.verifiers, account, authorized),
                ..old(self)@
            }),
    {
        match self.find_verifier(account) {
            Some(i) => {
                self.verifiers[i] = (account, authorized);
                assert(self.verifiers.deep_view() =~= old(self).verifiers.deep_view().update(
                    i as int,
                    (account, authorized),
                ));
            },
            None => {
                self.verifiers.push((account, authorized));
                assert(self.verifiers.deep_view() =~= old(self).verifiers.deep_view().push(
                    (account, authorized),
                ));
            },
        }
    }
}

} // verus!
