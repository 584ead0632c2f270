use std::collections::HashMap;
use vstd::prelude::*;

use crate::account::AccountId;
use crate::interfaces::{Owner, TokenCompliant};

verus! {

broadcast use vstd::std_specs::hash::group_hash_axioms;

/// Why a request did not go through.
#[derive(Clone, Copy, Debug, PartialEq, Eq, Structural)]
pub enum AnnounceError {
    /// An operation came before the state was constructed.
    NotInitialized,
    /// The state was constructed a second time.
    AlreadyInitialized,
    /// The registry could not be asked, answered badly, or knows no such token.
    ExternalCallFailed,
    /// The registry answered, and the requester is not the token's direct
    /// account owner.
    AuthorizationDenied,
}

/// The question to put to the registry: who holds `token_id`.
pub struct OwnershipQuery {
    pub registry: AccountId,
    pub token_id: u64,
}

/// What an announcement request captured when it was issued, handed to the
/// continuation that runs once the registry has answered.
pub struct PendingAnnouncement {
    pub nft_id: u64,
    pub announcement: String,
    pub requester: AccountId,
}

/// The policy: only a direct account owner equal to the requester may write.
/// Composed, cross-composed and locked tokens are never writable.
pub open spec fn authorizes_spec(owner: Owner, requester: Seq<char>) -> bool {
    match owner {
        Owner::Account(a) => a@ == requester,
        Owner::TokenId(_) => false,
        Owner::CrossKey(_) => false,
        Owner::Lock(_) => false,
    }
}

/// The owner that a registry reply reports, if the query went through.
pub open spec fn reply_owner(reply: Option<TokenCompliant>) -> Option<Owner> {
    match reply {
        Some(t) => Some(t.owner_id),
        None => None,
    }
}

/// How a request ends, given the owner reported (`None`: the query failed).
pub open spec fn reply_outcome(owner: Option<Owner>, requester: Seq<char>) -> Result<(), AnnounceError> {
    match owner {
        None => Err(AnnounceError::ExternalCallFailed),
        Some(o) => if authorizes_spec(o, requester) {
            Ok(())
        } else {
            Err(AnnounceError::AuthorizationDenied)
        },
    }
}

/// The announcements after a pending request has met the registry's answer:
/// the captured text is written under the captured token on success, and
/// nothing changes otherwise.
pub open spec fn committed(
    m: Map<u64, String>,
    owner: Option<Owner>,
    p: PendingAnnouncement,
) -> Map<u64, String> {
    if reply_outcome(owner, p.requester@) is Ok {
        m.insert(p.nft_id, p.announcement)
    } else {
        m
    }
}

/// The text that reads back for token `t`: empty where none was written.
pub open spec fn text_in(m: Map<u64, String>, t: u64) -> Seq<char> {
    if m.contains_key(t) {
        m[t]@
    } else {
        Seq::empty()
    }
}

/// Applies the policy to an owner reported by the registry.
pub fn authorizes(owner: &Owner, requester: &AccountId) -> (r: bool)
    ensures
        r == authorizes_spec(*owner, requester@),
{
    match owner {
        Owner::Account(a) => a.same_as(requester),
        Owner::TokenId(_) => false,
        Owner::CrossKey(_) => false,
        Owner::Lock(_) => false,
    }
}

/// The announcement service: the registry it trusts, and the text stored
/// for each token.
pub struct NFTAnnounce {
    pub nft_store_contract: AccountId,
    pub announcements: HashMap<u64, String>,
}

impl NFTAnnounce {
    /// The text that reads back for token `t`.
    pub open spec fn text_of(&self, t: u64) -> Seq<char> {
        text_in(self.announcements@, t)
    }

    /// Builds the state around the registry `nft_store_contract`; fails if a
    /// state already exists.
    pub fn new(nft_store_contract: AccountId, state_exists: bool) -> (r: Result<
        NFTAnnounce,
        AnnounceError,
    >)
        ensures
            r is Err <==> state_exists,
            r is Err ==> r->Err_0 == AnnounceError::AlreadyInitialized,
            r is Ok ==> r->Ok_0.nft_store_contract == nft_store_contract,
            r is Ok ==> r->Ok_0.announcements@ == Map::<u64, String>::empty(),
    {
        if state_exists {
            return Err(AnnounceError::AlreadyInitialized);
        }
        Ok(NFTAnnounce { nft_store_contract, announcements: HashMap::new() })
    }

    /// The registry this service asks about ownership.
    pub fn get_nft_store_contract(&self) -> (r: AccountId)
        ensures
            r == self.nft_store_contract,
    {
        self.nft_store_contract.duplicate()
    }

    /// The text stored for `nft_id`, or the empty string if there is none.
    pub fn get_announcement(&self, nft_id: u64) -> (r: String)
        ensures
            r@ == self.text_of(nft_id),
    {
        match self.announcements.get(&nft_id) {
            Some(announcement) => announcement.clone(),
            None => String::new(),
        }
    }

    /// The query that finds out who holds `nft_id`.
    pub fn get_nft_owner(&self, nft_id: u64) -> (r: OwnershipQuery)
        ensures
            r.registry == self.nft_store_contract,
            r.token_id == nft_id,
    {
        OwnershipQuery { registry: self.nft_store_contract.duplicate(), token_id: nft_id }
    }

    /// Starts a request by `signer` to write `announcement` under `nft_id`:
    /// the query to put to the registry, and what its continuation needs.
    /// Nothing is written before the registry has answered.
    pub fn announce(&self, nft_id: u64, announcement: String, signer: AccountId) -> (r: (
        OwnershipQuery,
        PendingAnnouncement,
    ))
        ensures
            r.0.registry == self.nft_store_contract,
            r.0.token_id == nft_id,
            r.1.nft_id == nft_id,
            r.1.announcement == announcement,
            r.1.requester == signer,
    {
        (
            self.get_nft_owner(nft_id),
            PendingAnnouncement { nft_id, announcement, requester: signer },
        )
    }

    /// Finishes a request once the registry has answered (`None`: the query
    /// failed or the token is unknown). The captured text is written only if
    /// the registry names the captured requester as the direct account owner.
    pub fn query_token_callback(
        &mut self,
        call_result: Option<TokenCompliant>,
        pending: PendingAnnouncement,
    ) -> (r: Result<(), AnnounceError>)
        ensures
            r == reply_outcome(reply_owner(call_result), pending.requester@),
            final(self).announcements@ == committed(
                old(self).announcements@,
                reply_owner(call_result),
                pending,
            ),
            final(self).nft_store_contract == old(self).nft_store_contract,
    {
        match call_result {
            None => Err(AnnounceError::ExternalCallFailed),
            Some(token) => {
                if authorizes(&token.owner_id, &pending.requester) {
                    self.announcements.insert(pending.nft_id, pending.announcement);
                    Ok(())
                } else {
                    Err(AnnounceError::AuthorizationDenied)
                }
            },
        }
    }

    /// Finishes an ownership query: the owner the registry reported, or
    /// `ExternalCallFailed` if the query failed.
    pub fn query_token_view_callback(&self, call_result: Option<TokenCompliant>) -> (r: Result<
        Owner,
        AnnounceError,
    >)
        ensures
            r is Err <==> call_result is None,
            r is Err ==> r->Err_0 == AnnounceError::ExternalCallFailed,
            r is Ok ==> r->Ok_0 == call_result->Some_0.owner_id,
    {
        match call_result {
            None => Err(AnnounceError::ExternalCallFailed),
            Some(token) => Ok(token.owner_id),
        }
    }
}

} // verus!
