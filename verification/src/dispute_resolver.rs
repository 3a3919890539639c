//! The arbitration engine of the relay network: two relay nodes submit
//! competing proofs about one transaction, and the engine rules for one of
//! them and has the other slashed.
//!
//! A dispute is `Open` once raised. A counter-proof that arrives by the
//! dispute's deadline makes it `Responded`, and resolving it then makes it
//! `Resolved`, with a ruling drawn from the two proofs. An open dispute whose
//! deadline has passed is resolved to `Expired`, with a ruling for the
//! initiator and nobody slashed. Nothing happens by itself: somebody has to
//! ask for the resolution, and anybody may.
//!
//! Whether a proof verifies is decided outside the engine; each operation
//! that needs to know takes the answer as an argument. Operations that act
//! for a party expect their caller to have authenticated that party's
//! address beforehand.

use vstd::prelude::*;
use crate::address::Address;
use crate::dispute_resolver::rules::{
    after_raise, after_resolve, after_respond, has_response, ledger_after_ruling, raise_refusal,
    raised_dispute, resolve_refusal, respond_refusal, responded_dispute, ruling_for,
    ruling_refusal, verdict, window_refusal,
};
use crate::dispute_resolver::storage::Storage;
use crate::dispute_resolver::types::{
    Dispute, DisputeStatus, Party, RelayChainProof, Ruling, RulingReason,
};
use crate::dispute_resolver::errors::ContractError;
use crate::relay_registry::types::NodeStatus;
use crate::relay_registry::RelayRegistryContract;
use crate::table::Key;

pub mod errors;
pub mod laws;
pub mod rules;
pub mod storage;
pub mod types;

verus! {

/// The operations of the arbitration engine.
pub struct DisputeResolverContract;

impl DisputeResolverContract {
    /// Raises a dispute about the transaction `tx_id` for `initiator` at
    /// `now`, on the strength of `proof`. The initiator must be a relay node
    /// in good standing with `registry`, no other dispute about the
    /// transaction may be in progress, and the proof must verify, which
    /// `proof_valid` says. The new dispute is open until the resolution
    /// window has passed.
    pub fn raise_dispute(
        storage: &mut Storage,
        registry: &crate::relay_registry::storage::Storage,
        now: u64,
        initiator: Address,
        tx_id: [u8; 32],
        proof: RelayChainProof,
        proof_valid: bool,
    ) -> (result: Result<Dispute, ContractError>)
        ensures
            match result {
                Ok(dispute) => {
                    &&& raise_refusal(
                        old(storage)@,
                        registry@,
                        initiator@,
                        tx_id@,
                        proof_valid,
                        now as nat,
                    ) is None
                    &&& dispute@ == raised_dispute(
                        old(storage)@,
                        initiator@,
                        tx_id@,
                        proof@,
                        now as nat,
                    )
                    &&& final(storage)@ == after_raise(
                        old(storage)@,
                        initiator@,
                        tx_id@,
                        proof@,
                        now as nat,
                    )
                },
                Err(error) => {
                    &&& raise_refusal(
                        old(storage)@,
                        registry@,
                        initiator@,
                        tx_id@,
                        proof_valid,
                        now as nat,
                    ) == Some(error)
                    &&& final(storage)@ == old(storage)@
                },
            },
    {
        match crate::relay_registry::storage::get_node(registry, &initiator) {
            Some(node) => {
                if node.status == NodeStatus::Slashed {
                    return Err(ContractError::Unauthorized);
                }
            },
            None => {
                return Err(ContractError::Unauthorized);
            },
        }
        if storage::find_dispute_in_progress(storage, &tx_id).is_some() {
            return Err(ContractError::TxAlreadyDisputed);
        }
        if !proof_valid {
            return Err(ContractError::InvalidProof);
        }
        let window: u64 = storage::get_resolution_window(storage) as u64;
        let resolve_by: u64 = match now.checked_add(window) {
            Some(time) => time,
            None => {
                return Err(ContractError::Overflow);
            },
        };
        let dispute_id: u64 = match storage::next_dispute_id(storage) {
            Ok(dispute_id) => dispute_id,
            Err(error) => {
                return Err(error);
            },
        };
        let dispute = Dispute {
            dispute_id,
            tx_id,
            initiator,
            respondent: None,
            initiator_proof: proof,
            respondent_proof: None,
            status: DisputeStatus::Open,
            raised_at: now,
            resolve_by,
        };
        storage::set_dispute(storage, dispute_id, &dispute);
        Ok(dispute)
    }

    /// Answers the dispute `dispute_id` for `caller` at `now` with the
    /// counter-proof `proof`. The caller must be a party other than the
    /// initiator, the deadline must not have passed, nobody may have
    /// answered before, and the proof must verify, which `proof_valid` says.
    pub fn respond(
        storage: &mut Storage,
        now: u64,
        dispute_id: u64,
        caller: Address,
        proof: RelayChainProof,
        proof_valid: bool,
    ) -> (result: Result<Dispute, ContractError>)
        ensures
            match result {
                Ok(dispute) => {
                    &&& respond_refusal(old(storage)@, dispute_id, caller@, proof_valid, now as nat)
                        is None
                    &&& dispute@ == responded_dispute(
                        old(storage)@.disputes[dispute_id],
                        caller@,
                        proof@,
                    )
                    &&& final(storage)@ == after_respond(old(storage)@, dispute_id, caller@, proof@)
                },
                Err(error) => {
                    &&& respond_refusal(old(storage)@, dispute_id, caller@, proof_valid, now as nat)
                        == Some(error)
                    &&& final(storage)@ == old(storage)@
                },
            },
    {
        let mut dispute = match storage::get_dispute(storage, dispute_id) {
            Some(dispute) => dispute,
            None => {
                return Err(ContractError::DisputeNotFound);
            },
        };
        match dispute.status {
            DisputeStatus::Resolved => {
                return Err(ContractError::DisputeAlreadyResolved);
            },
            DisputeStatus::Expired => {
                return Err(ContractError::DisputeAlreadyResolved);
            },
            _ => {},
        }
        if caller.same(&dispute.initiator) {
            return Err(ContractError::Unauthorized);
        }
        if now > dispute.resolve_by {
            return Err(ContractError::DisputeExpired);
        }
        if dispute.status == DisputeStatus::Responded {
            let answered_by_caller = match &dispute.respondent {
                Some(respondent) => respondent.same(&caller),
                None => false,
            };
            if answered_by_caller {
                return Err(ContractError::ProofAlreadySubmitted);
            }
            return Err(ContractError::Unauthorized);
        }
        if !proof_valid {
            return Err(ContractError::InvalidProof);
        }
        dispute.respondent = Some(caller);
        dispute.respondent_proof = Some(proof);
        dispute.status = DisputeStatus::Responded;
        storage::set_dispute(storage, dispute_id, &dispute);
        Ok(dispute)
    }

    /// Decides between the initiator's proof and the respondent's.
    /// `initiator_valid` and `respondent_valid` say whether each proof
    /// verifies now.
    pub fn judge(
        initiator_proof: &RelayChainProof,
        respondent_proof: &RelayChainProof,
        initiator_valid: bool,
        respondent_valid: bool,
    ) -> (outcome: (Party, RulingReason))
        ensures
            outcome == verdict(
                initiator_proof@.sequence,
                respondent_proof@.sequence,
                initiator_valid,
                respondent_valid,
            ),
    {
        if initiator_valid && respondent_valid {
            if respondent_proof.sequence < initiator_proof.sequence {
                (Party::Respondent, RulingReason::EarlierSequence)
            } else if initiator_proof.sequence < respondent_proof.sequence {
                (Party::Initiator, RulingReason::EarlierSequence)
            } else {
                (Party::Initiator, RulingReason::SequenceTie)
            }
        } else if initiator_valid {
            (Party::Initiator, RulingReason::OnlyValidProof)
        } else if respondent_valid {
            (Party::Respondent, RulingReason::OnlyValidProof)
        } else {
            (Party::Initiator, RulingReason::NoValidProof)
        }
    }

    /// The counter-party of `dispute` and its proof, where the dispute has
    /// been answered.
    fn response_of(dispute: &Dispute) -> (response: Option<(Address, RelayChainProof)>)
        ensures
            response is Some == has_response(dispute@),
            match response {
                Some((respondent, proof)) => {
                    &&& respondent@ == dispute@.respondent->0
                    &&& proof@ == dispute@.respondent_proof->0
                },
                None => true,
            },
    {
        if dispute.status == DisputeStatus::Responded {
            match &dispute.respondent {
                Some(respondent) => match dispute.respondent_proof {
                    Some(proof) => Some((respondent.clone(), proof)),
                    None => None,
                },
                None => None,
            }
        } else {
            None
        }
    }

    /// Resolves the dispute `dispute_id` at `now`; anybody may ask for it.
    /// A dispute that was answered is ruled on by its two proofs, of which
    /// `initiator_valid` and `respondent_valid` say whether each verifies
    /// now, and the loser is slashed in `registry`. A dispute that was not
    /// answered can be resolved once its deadline has passed: it expires
    /// with a ruling for the initiator, and nobody is slashed.
    pub fn resolve(
        storage: &mut Storage,
        registry: &mut crate::relay_registry::storage::Storage,
        now: u64,
        dispute_id: u64,
        initiator_valid: bool,
        respondent_valid: bool,
    ) -> (result: Result<Ruling, ContractError>)
        ensures
            match result {
                Ok(ruling) => {
                    &&& resolve_refusal(old(storage)@, dispute_id, now as nat) is None
                    &&& ruling@ == ruling_for(
                        old(storage)@.disputes[dispute_id],
                        initiator_valid,
                        respondent_valid,
                        now as nat,
                    )
                    &&& final(storage)@ == after_resolve(
                        old(storage)@,
                        dispute_id,
                        initiator_valid,
                        respondent_valid,
                        now as nat,
                    )
                    &&& final(registry)@ == ledger_after_ruling(
                        old(registry)@,
                        ruling@,
                        now as nat,
                    )
                },
                Err(error) => {
                    &&& resolve_refusal(old(storage)@, dispute_id, now as nat) == Some(error)
                    &&& final(storage)@ == old(storage)@
                    &&& final(registry)@ == old(registry)@
                },
            },
    {
        let mut dispute = match storage::get_dispute(storage, dispute_id) {
            Some(dispute) => dispute,
            None => {
                return Err(ContractError::DisputeNotFound);
            },
        };
        match dispute.status {
            DisputeStatus::Resolved => {
                return Err(ContractError::DisputeAlreadyResolved);
            },
            DisputeStatus::Expired => {
                return Err(ContractError::DisputeAlreadyResolved);
            },
            _ => {},
        }
        let ruling = match Self::response_of(&dispute) {
            Some((respondent, respondent_proof)) => {
                let (winner, reason) = Self::judge(
                    &dispute.initiator_proof,
                    &respondent_proof,
                    initiator_valid,
                    respondent_valid,
                );
                dispute.status = DisputeStatus::Resolved;
                match winner {
                    Party::Initiator => Ruling {
                        winner: dispute.initiator.clone(),
                        loser: Some(respondent),
                        reason: reason.text(),
                        resolved_at: now,
                    },
                    Party::Respondent => Ruling {
                        winner: respondent,
                        loser: Some(dispute.initiator.clone()),
                        reason: reason.text(),
                        resolved_at: now,
                    },
                }
            },
            None => {
                if now <= dispute.resolve_by {
                    return Err(ContractError::DisputeNotResolvable);
                }
                dispute.status = DisputeStatus::Expired;
                Ruling {
                    winner: dispute.initiator.clone(),
                    loser: None,
                    reason: RulingReason::NoResponse.text(),
                    resolved_at: now,
                }
            },
        };
        storage::set_dispute(storage, dispute_id, &dispute);
        storage::set_ruling(storage, dispute_id, &ruling);
        match &ruling.loser {
            Some(loser) => {
                let _ = RelayRegistryContract::slash(
                    registry,
                    now,
                    loser.clone(),
                    ruling.reason.clone(),
                );
            },
            None => {},
        }
        Ok(ruling)
    }

    /// Fetches the dispute filed under `dispute_id`.
    pub fn get_dispute(storage: &Storage, dispute_id: u64) -> (result: Result<
        Dispute,
        ContractError,
    >)
        ensures
            match result {
                Ok(dispute) => storage@.disputes.contains_key(dispute_id) && dispute@
                    == storage@.disputes[dispute_id],
                Err(error) => !storage@.disputes.contains_key(dispute_id) && error
                    == ContractError::DisputeNotFound,
            },
    {
        match storage::get_dispute(storage, dispute_id) {
            Some(dispute) => Ok(dispute),
            None => Err(ContractError::DisputeNotFound),
        }
    }

    /// Fetches the ruling that closed the dispute `dispute_id`. The store is
    /// left untouched, so asking again gives the same ruling.
    pub fn get_ruling(storage: &Storage, dispute_id: u64) -> (result: Result<Ruling, ContractError>)
        ensures
            match result {
                Ok(ruling) => ruling_refusal(storage@, dispute_id) is None && ruling@
                    == storage@.rulings[dispute_id],
                Err(error) => ruling_refusal(storage@, dispute_id) == Some(error),
            },
    {
        let dispute = match storage::get_dispute(storage, dispute_id) {
            Some(dispute) => dispute,
            None => {
                return Err(ContractError::DisputeNotFound);
            },
        };
        match dispute.status {
            DisputeStatus::Open => {
                return Err(ContractError::DisputeNotResolvable);
            },
            DisputeStatus::Responded => {
                return Err(ContractError::DisputeNotResolvable);
            },
            _ => {},
        }
        match storage::get_ruling(storage, dispute_id) {
            Some(ruling) => Ok(ruling),
            None => Err(ContractError::DisputeNotResolvable),
        }
    }

    /// Sets the resolution window on the word of `caller`, who must be the
    /// engine's administrator. The window must leave time for an answer: a
    /// window of zero is not accepted.
    pub fn configure_resolution_window(storage: &mut Storage, caller: Address, window: u32) -> (result:
        Result<(), ContractError>)
        ensures
            match result {
                Ok(_) => {
                    &&& window_refusal(old(storage)@, caller@, window as nat) is None
                    &&& final(storage)@ == old(storage)@.with_resolution_window(window as nat)
                },
                Err(error) => {
                    &&& window_refusal(old(storage)@, caller@, window as nat) == Some(error)
                    &&& final(storage)@ == old(storage)@
                },
            },
    {
        let admin = storage::get_admin(storage);
        if !caller.same(&admin) {
            return Err(ContractError::Unauthorized);
        }
        if window == 0 {
            return Err(ContractError::DisputeNotResolvable);
        }
        storage::set_resolution_window(storage, window);
        Ok(())
    }
}

} // verus!
