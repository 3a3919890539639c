use vstd::prelude::*;
use crate::dispute_resolver::storage::EngineModel;
use crate::dispute_resolver::types::{
    DisputeModel, DisputeStatus, Party, ProofModel, RulingModel, RulingReason,
};
use crate::dispute_resolver::errors::ContractError;
use crate::relay_registry::rules::{after_slash, slash_refusal};
use crate::relay_registry::storage::LedgerModel;
use crate::relay_registry::types::NodeStatus;

verus! {

// ---------------------------------------------------------------------------
// Raising a dispute
// ---------------------------------------------------------------------------

/// Whether `address` may raise a dispute: it is a registered relay node that
/// has not been slashed.
pub open spec fn in_good_standing(ledger: LedgerModel, address: Seq<char>) -> bool {
    ledger.nodes.contains_key(address) && ledger.nodes[address].status != NodeStatus::Slashed
}

/// Why a dispute cannot be raised, or `None` where it can. `proof_valid`
/// says whether the initiator's proof verifies.
pub open spec fn raise_refusal(
    engine: EngineModel,
    ledger: LedgerModel,
    initiator: Seq<char>,
    tx_id: Seq<u8>,
    proof_valid: bool,
    now: nat,
) -> Option<ContractError> {
    if !in_good_standing(ledger, initiator) {
        Some(ContractError::Unauthorized)
    } else if engine.tx_in_progress(tx_id) {
        Some(ContractError::TxAlreadyDisputed)
    } else if !proof_valid {
        Some(ContractError::InvalidProof)
    } else if now + engine.resolution_window > u64::MAX {
        Some(ContractError::Overflow)
    } else if engine.dispute_count >= u64::MAX {
        Some(ContractError::Overflow)
    } else {
        None
    }
}

/// The dispute that `initiator` raises about `tx_id` at `now`.
pub open spec fn raised_dispute(
    engine: EngineModel,
    initiator: Seq<char>,
    tx_id: Seq<u8>,
    proof: ProofModel,
    now: nat,
) -> DisputeModel {
    DisputeModel {
        dispute_id: engine.dispute_count + 1,
        tx_id,
        initiator,
        respondent: None,
        initiator_proof: proof,
        respondent_proof: None,
        status: DisputeStatus::Open,
        raised_at: now,
        resolve_by: now + engine.resolution_window,
    }
}

/// The engine after a dispute was raised.
pub open spec fn after_raise(
    engine: EngineModel,
    initiator: Seq<char>,
    tx_id: Seq<u8>,
    proof: ProofModel,
    now: nat,
) -> EngineModel {
    engine.with_dispute_count(engine.dispute_count + 1).with_dispute(
        (engine.dispute_count + 1) as u64,
        raised_dispute(engine, initiator, tx_id, proof, now),
    )
}

// ---------------------------------------------------------------------------
// Responding
// ---------------------------------------------------------------------------

/// Why `caller` cannot answer the dispute `dispute_id` at `now`, or `None`
/// where it can. `proof_valid` says whether the counter-proof verifies.
pub open spec fn respond_refusal(
    engine: EngineModel,
    dispute_id: u64,
    caller: Seq<char>,
    proof_valid: bool,
    now: nat,
) -> Option<ContractError> {
    if !engine.disputes.contains_key(dispute_id) {
        Some(ContractError::DisputeNotFound)
    } else {
        let dispute = engine.disputes[dispute_id];
        if dispute.status.terminal() {
            Some(ContractError::DisputeAlreadyResolved)
        } else if caller == dispute.initiator {
            Some(ContractError::Unauthorized)
        } else if now > dispute.resolve_by {
            Some(ContractError::DisputeExpired)
        } else if dispute.status == DisputeStatus::Responded {
            if dispute.respondent == Some(caller) {
                Some(ContractError::ProofAlreadySubmitted)
            } else {
                Some(ContractError::Unauthorized)
            }
        } else if !proof_valid {
            Some(ContractError::InvalidProof)
        } else {
            None
        }
    }
}

/// The dispute after `caller` answered it with `proof`.
pub open spec fn responded_dispute(dispute: DisputeModel, caller: Seq<char>, proof: ProofModel) -> DisputeModel {
    DisputeModel {
        respondent: Some(caller),
        respondent_proof: Some(proof),
        status: DisputeStatus::Responded,
        ..dispute
    }
}

/// The engine after a response that went through.
pub open spec fn after_respond(
    engine: EngineModel,
    dispute_id: u64,
    caller: Seq<char>,
    proof: ProofModel,
) -> EngineModel {
    engine.with_dispute(
        dispute_id,
        responded_dispute(engine.disputes[dispute_id], caller, proof),
    )
}

// ---------------------------------------------------------------------------
// Resolving
// ---------------------------------------------------------------------------

/// Whether a counter-party has answered the dispute with a proof.
pub open spec fn has_response(dispute: DisputeModel) -> bool {
    &&& dispute.status == DisputeStatus::Responded
    &&& dispute.respondent is Some
    &&& dispute.respondent_proof is Some
}

/// Who wins between two proofs, and on what grounds. Of two proofs that
/// verify, the one with the lower sequence wins, and the initiator's where
/// both carry the same; a proof that verifies wins over one that does not;
/// where neither verifies the initiator wins.
pub open spec fn verdict(
    initiator_sequence: nat,
    respondent_sequence: nat,
    initiator_valid: bool,
    respondent_valid: bool,
) -> (Party, RulingReason) {
    if initiator_valid && respondent_valid {
        if respondent_sequence < initiator_sequence {
            (Party::Respondent, RulingReason::EarlierSequence)
        } else if initiator_sequence < respondent_sequence {
            (Party::Initiator, RulingReason::EarlierSequence)
        } else {
            (Party::Initiator, RulingReason::SequenceTie)
        }
    } else if initiator_valid {
        (Party::Initiator, RulingReason::OnlyValidProof)
    } else if respondent_valid {
        (Party::Respondent, RulingReason::OnlyValidProof)
    } else {
        (Party::Initiator, RulingReason::NoValidProof)
    }
}

/// Why the dispute `dispute_id` cannot be resolved at `now`, or `None`
/// where it can.
pub open spec fn resolve_refusal(engine: EngineModel, dispute_id: u64, now: nat) -> Option<
    ContractError,
> {
    if !engine.disputes.contains_key(dispute_id) {
        Some(ContractError::DisputeNotFound)
    } else {
        let dispute = engine.disputes[dispute_id];
        if dispute.status.terminal() {
            Some(ContractError::DisputeAlreadyResolved)
        } else if !has_response(dispute) && now <= dispute.resolve_by {
            Some(ContractError::DisputeNotResolvable)
        } else {
            None
        }
    }
}

/// The ruling that closes `dispute` at `now`. A dispute that was answered
/// is ruled on by its two proofs, and the party that does not win loses. A
/// dispute that was not answered goes to the initiator, and nobody loses.
pub open spec fn ruling_for(
    dispute: DisputeModel,
    initiator_valid: bool,
    respondent_valid: bool,
    now: nat,
) -> RulingModel {
    if has_response(dispute) {
        let outcome = verdict(
            dispute.initiator_proof.sequence,
            dispute.respondent_proof->0.sequence,
            initiator_valid,
            respondent_valid,
        );
        if outcome.0 == Party::Initiator {
            RulingModel {
                winner: dispute.initiator,
                loser: Some(dispute.respondent->0),
                reason: outcome.1.words(),
                resolved_at: now,
            }
        } else {
            RulingModel {
                winner: dispute.respondent->0,
                loser: Some(dispute.initiator),
                reason: outcome.1.words(),
                resolved_at: now,
            }
        }
    } else {
        RulingModel {
            winner: dispute.initiator,
            loser: None,
            reason: RulingReason::NoResponse.words(),
            resolved_at: now,
        }
    }
}

/// The dispute once it has been ruled on.
pub open spec fn closed_dispute(dispute: DisputeModel) -> DisputeModel {
    DisputeModel {
        status: if has_response(dispute) {
            DisputeStatus::Resolved
        } else {
            DisputeStatus::Expired
        },
        ..dispute
    }
}

/// The engine after the dispute `dispute_id` was resolved at `now`.
pub open spec fn after_resolve(
    engine: EngineModel,
    dispute_id: u64,
    initiator_valid: bool,
    respondent_valid: bool,
    now: nat,
) -> EngineModel {
    engine.with_dispute(dispute_id, closed_dispute(engine.disputes[dispute_id])).with_ruling(
        dispute_id,
        ruling_for(engine.disputes[dispute_id], initiator_valid, respondent_valid, now),
    )
}

/// The stake ledger after `ruling` was carried out at `now`: the loser, if
/// the ruling names one, is slashed, unless the ledger refuses because it
/// knows no such node or has slashed it before.
pub open spec fn ledger_after_ruling(ledger: LedgerModel, ruling: RulingModel, now: nat) -> LedgerModel {
    match ruling.loser {
        Some(loser) => if slash_refusal(ledger, loser) is None {
            after_slash(ledger, loser, now)
        } else {
            ledger
        },
        None => ledger,
    }
}

// ---------------------------------------------------------------------------
// Queries and settings
// ---------------------------------------------------------------------------

/// Why no ruling can be fetched for `dispute_id`, or `None` where one can.
pub open spec fn ruling_refusal(engine: EngineModel, dispute_id: u64) -> Option<ContractError> {
    if !engine.disputes.contains_key(dispute_id) {
        Some(ContractError::DisputeNotFound)
    } else if !engine.disputes[dispute_id].status.terminal() || !engine.rulings.contains_key(
        dispute_id,
    ) {
        Some(ContractError::DisputeNotResolvable)
    } else {
        None
    }
}

/// Why a new resolution window is refused, or `None` where it is taken.
pub open spec fn window_refusal(engine: EngineModel, caller: Seq<char>, window: nat) -> Option<
    ContractError,
> {
    if caller != engine.admin {
        Some(ContractError::Unauthorized)
    } else if window == 0 {
        Some(ContractError::DisputeNotResolvable)
    } else {
        None
    }
}

} // verus!
