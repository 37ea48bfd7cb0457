//! Reading the pallet: what it holds about products, claims, waiting
//! entries, fees and verifiers.
use crate::bounded::{claim_views, claims_get, claims_held, claims_len};
use crate::keys::{copy_bytes, copy_optional_bytes, optional_bytes, AccountId, Balance, BlockNumber};
use crate::runtime_integration::ClaimType;
use crate::storage::Pallet;
use crate::types::{Error, Product, ProductInfo, VerifiedClaim};
use vstd::prelude::*;

verus! {

impl Pallet {
    /// The product of that name, if there is one.
    pub fn products(&self, product_id: &Vec<u8>) -> (product: Option<Product>)
        ensures
            match product {
                Some(found) => self@.product(product_id@) == Some(found@),
                None => self@.product(product_id@) is None,
            },
    {
        match self.find_product(product_id) {
            Some(p) => Some(self.product(p).duplicate()),
            None => None,
        }
    }

    /// The short form of the product of that name, if there is one.
    pub fn product_info(&self, product_id: &Vec<u8>) -> (info: Option<ProductInfo>)
        ensures
            match info {
                Some(found) => {
                    &&& self@.product(product_id@) is Some
                    &&& found.owner == self@.product(product_id@)->0.owner
                    &&& found.name@ == self@.product(product_id@)->0.name
                    &&& found.description@ == self@.product(product_id@)->0.description
                    &&& found.verified == self@.product(product_id@)->0.origin_verified
                },
                None => self@.product(product_id@) is None,
            },
    {
        match self.find_product(product_id) {
            Some(p) => {
                let product = self.product(p);
                Some(
                    ProductInfo {
                        owner: product.owner,
                        name: copy_bytes(&product.name),
                        description: copy_bytes(&product.description),
                        verified: product.origin_verified,
                    },
                )
            },
            None => None,
        }
    }

    /// The claims of the product of that name, oldest first; none where
    /// there is no such product.
    pub fn product_claims(&self, product_id: &Vec<u8>) -> (claims: Vec<VerifiedClaim>)
        ensures
            claims.deep_view() == self@.claims_of(product_id@),
    {
        let mut claims: Vec<VerifiedClaim> = Vec::new();
        if let Some(p) = self.find_product(product_id) {
            let kept = self.claims(p);
            let count = claims_len(kept);
            let mut c: usize = 0;
            while c < count
                invariant
                    c <= count,
                    count == claims_held(*kept).len(),
                    claims.len() == c,
                    forall|d: int| 0 <= d < c ==> claims[d]@ == claims_held(*kept)[d]@,
                decreases count - c,
            {
                claims.push(claims_get(kept, c).duplicate());
                c += 1;
            }
            assert(claims.deep_view() =~= claim_views(*kept));
        } else {
            assert(claims.deep_view() =~= Seq::empty());
        }
        claims
    }

    /// The product and the deadline of the local claim of that name, if it
    /// waits.
    pub fn pending_verifications(&self, claim_id: &Vec<u8>) -> (entry: Option<
        (Vec<u8>, BlockNumber),
    >)
        ensures
            match entry {
                Some((product_id, deadline)) => {
                    &&& self@.pending_entry(claim_id@) is Some
                    &&& product_id@ == self@.pending_entry(claim_id@)->0.product_id
                    &&& deadline == self@.pending_entry(claim_id@)->0.deadline
                },
                None => self@.pending_entry(claim_id@) is None,
            },
    {
        match self.find_pending(claim_id) {
            Some(e) => {
                let entry = self.pending_entry(e);
                Some((copy_bytes(&entry.product_id), entry.deadline))
            },
            None => None,
        }
    }

    /// The counterparty, the product and the deadline of the cross-chain
    /// claim of that name, if it waits.
    pub fn cross_chain_verifications(&self, claim_id: &Vec<u8>) -> (entry: Option<
        (u32, Vec<u8>, BlockNumber),
    >)
        ensures
            match entry {
                Some((para_id, product_id, deadline)) => {
                    &&& self@.cross_chain_entry(claim_id@) is Some
                    &&& para_id == self@.cross_chain_entry(claim_id@)->0.para_id
                    &&& product_id@ == self@.cross_chain_entry(claim_id@)->0.product_id
                    &&& deadline == self@.cross_chain_entry(claim_id@)->0.deadline
                },
                None => self@.cross_chain_entry(claim_id@) is None,
            },
    {
        match self.find_cross_chain(claim_id) {
            Some(e) => {
                let entry = self.cross_chain_entry(e);
                Some((entry.para_id, copy_bytes(&entry.product_id), entry.deadline))
            },
            None => None,
        }
    }

    /// The scheduled fee for a claim type; nothing where none is listed.
    pub fn verification_fees(&self, claim_type: &ClaimType) -> (fee: Balance)
        ensures
            fee == self@.fee(claim_type@),
    {
        self.scheduled_fee(claim_type)
    }

    /// Whether the account is named as a verifier.
    pub fn authorized_verifiers(&self, account: AccountId) -> (authorized: bool)
        ensures
            authorized == self@.is_authorized(account),
    {
        self.is_authorized(account)
    }

    /// The decentralized identifier of the owner of the product of that
    /// name, if one is kept.
    pub fn product_owner_dids(&self, product_id: &Vec<u8>) -> (did: Option<Vec<u8>>)
        ensures
            optional_bytes(did) == self@.owner_did_of(product_id@),
    {
        match self.find_product(product_id) {
            Some(p) => copy_optional_bytes(self.owner_did(p)),
            None => None,
        }
    }

    /// Where the claim of that name stands among the claims of the product
    /// of that name; `None` where there is no such product or no such
    /// claim.
    pub fn find_claim_index_or_none(&self, product_id: &Vec<u8>, claim_id: &Vec<u8>) -> (index:
        Option<u32>)
        requires
            self.wf(),
        ensures
            match index {
                Some(c) => self@.claim_position(product_id@, claim_id@) == Some(c as int),
                None => self@.claim_position(product_id@, claim_id@) is None,
            },
    {
        match self.locate(product_id, claim_id) {
            Some((p, c)) => {
                assert(self@.record_in_order(p as int));
                Some(c as u32)
            },
            None => None,
        }
    }

    /// Where the claim of that name stands among the claims of the product
    /// of that name. Refused with `ClaimNotFound` where there is no such
    /// product or no such claim.
    pub fn find_claim_index(&self, product_id: &Vec<u8>, claim_id: &Vec<u8>) -> (index: Result<
        u32,
        Error,
    >)
        requires
            self.wf(),
        ensures
            match index {
                Ok(c) => self@.claim_position(product_id@, claim_id@) == Some(c as int),
                Err(error) => error == Error::ClaimNotFound && self@.claim_position(
                    product_id@,
                    claim_id@,
                ) is None,
            },
    {
        match self.find_claim_index_or_none(product_id, claim_id) {
            Some(c) => Ok(c),
            None => Err(Error::ClaimNotFound),
        }
    }
}

} // verus!
