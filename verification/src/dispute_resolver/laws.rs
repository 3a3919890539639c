//! What holds of the arbitration engine over every course of operations.

use vstd::prelude::*;
use crate::dispute_resolver::rules::{
    after_raise, after_resolve, after_respond, in_good_standing, ledger_after_ruling,
    raise_refusal, resolve_refusal, respond_refusal, ruling_for, ruling_refusal, verdict,
    window_refusal,
};
use crate::dispute_resolver::storage::EngineModel;
use crate::dispute_resolver::types::{
    DisputeStatus, Party, ProofModel, RulingModel, RulingReason,
};
use crate::dispute_resolver::errors::ContractError;
use crate::relay_registry::laws::{holdings, LedgerOp};
use crate::relay_registry::storage::LedgerModel;
use crate::relay_registry::types::NodeStatus;

verus! {

/// One request to the arbitration engine.
pub ghost enum EngineOp {
    Raise { initiator: Seq<char>, tx_id: Seq<u8>, proof: ProofModel, proof_valid: bool },
    Respond { dispute_id: u64, caller: Seq<char>, proof: ProofModel, proof_valid: bool },
    Resolve { dispute_id: u64, initiator_valid: bool, respondent_valid: bool },
}

impl EngineOp {
    /// Why the engine refuses the request at `now`, with the stake ledger
    /// as it is then, or `None` where it goes through.
    pub open spec fn refusal(self, engine: EngineModel, ledger: LedgerModel, now: nat) -> Option<
        ContractError,
    > {
        match self {
            EngineOp::Raise { initiator, tx_id, proof, proof_valid } => raise_refusal(
                engine,
                ledger,
                initiator,
                tx_id,
                proof_valid,
                now,
            ),
            EngineOp::Respond { dispute_id, caller, proof, proof_valid } => respond_refusal(
                engine,
                dispute_id,
                caller,
                proof_valid,
                now,
            ),
            EngineOp::Resolve { dispute_id, .. } => resolve_refusal(engine, dispute_id, now),
        }
    }
}

/// The engine after `op` was requested at `now`: changed as the operation
/// says where it goes through, and as it was where it is refused.
pub open spec fn step(engine: EngineModel, ledger: LedgerModel, op: EngineOp, now: nat) -> EngineModel {
    if op.refusal(engine, ledger, now) is Some {
        engine
    } else {
        match op {
            EngineOp::Raise { initiator, tx_id, proof, .. } => after_raise(
                engine,
                initiator,
                tx_id,
                proof,
                now,
            ),
            EngineOp::Respond { dispute_id, caller, proof, .. } => after_respond(
                engine,
                dispute_id,
                caller,
                proof,
            ),
            EngineOp::Resolve { dispute_id, initiator_valid, respondent_valid } => after_resolve(
                engine,
                dispute_id,
                initiator_valid,
                respondent_valid,
                now,
            ),
        }
    }
}

/// The engine after a course of requests, each made with the stake ledger
/// and at the time paired with it, starting from `engine`.
pub open spec fn run(engine: EngineModel, course: Seq<(EngineOp, LedgerModel, nat)>) -> EngineModel
    decreases course.len(),
{
    if course.len() == 0 {
        engine
    } else {
        step(
            run(engine, course.drop_last()),
            course.last().1,
            course.last().0,
            course.last().2,
        )
    }
}

/// What holds of every dispute on file: it is filed under its own
/// identifier, which the counter has handed out; its deadline lies after the
/// time it was raised; it names a respondent and holds a counter-proof
/// exactly when it was answered, that is when it is `Responded` or
/// `Resolved`; the respondent is not the initiator; and it has a ruling
/// exactly when it has reached a terminal state.
pub open spec fn dispute_in_order(engine: EngineModel, dispute_id: u64) -> bool {
    let dispute = engine.disputes[dispute_id];
    &&& dispute.dispute_id == dispute_id
    &&& 1 <= dispute_id <= engine.dispute_count
    &&& dispute.resolve_by > dispute.raised_at
    &&& dispute.respondent is Some <==> dispute.respondent_proof is Some
    &&& dispute.respondent_proof is Some <==> (dispute.status == DisputeStatus::Responded
        || dispute.status == DisputeStatus::Resolved)
    &&& dispute.respondent != Some(dispute.initiator)
    &&& dispute.status.terminal() <==> engine.rulings.contains_key(dispute_id)
}

/// The invariant of the arbitration engine. The resolution window leaves
/// time for an answer; every dispute on file is in order; every ruling
/// belongs to a dispute on file; and no two disputes about the same
/// transaction are in progress at once.
pub open spec fn consistent(engine: EngineModel) -> bool {
    &&& engine.resolution_window > 0
    &&& engine.dispute_count <= u64::MAX
    &&& forall|dispute_id: u64| #[trigger]
        engine.disputes.contains_key(dispute_id) ==> dispute_in_order(engine, dispute_id)
    &&& forall|dispute_id: u64| #[trigger]
        engine.rulings.contains_key(dispute_id) ==> engine.disputes.contains_key(dispute_id)
    &&& forall|first: u64, second: u64, tx_id: Seq<u8>|
        #![trigger engine.blocks(first, tx_id), engine.blocks(second, tx_id)]
        engine.blocks(first, tx_id) && engine.blocks(second, tx_id) ==> first == second
}

/// An engine that was just set up is consistent.
pub proof fn law_initial_engine_consistent(admin: Seq<char>)
    ensures
        consistent(EngineModel::initial(admin)),
{
}

/// One request keeps the engine consistent.
pub proof fn law_step_keeps_consistency(
    engine: EngineModel,
    ledger: LedgerModel,
    op: EngineOp,
    now: nat,
)
    requires
        consistent(engine),
    ensures
        consistent(step(engine, ledger, op, now)),
{
    let next = step(engine, ledger, op, now);
    if op.refusal(engine, ledger, now) is None {
        match op {
            EngineOp::Raise { initiator, tx_id, proof, proof_valid } => {
                let fresh = (engine.dispute_count + 1) as u64;
                if engine.disputes.contains_key(fresh) {
                    assert(dispute_in_order(engine, fresh));
                }
                if engine.rulings.contains_key(fresh) {
                    assert(engine.disputes.contains_key(fresh));
                }
                assert forall|dispute_id: u64| #[trigger]
                    next.disputes.contains_key(dispute_id) implies dispute_in_order(
                    next,
                    dispute_id,
                ) by {
                    if dispute_id != fresh {
                        assert(engine.disputes.contains_key(dispute_id));
                        assert(dispute_in_order(engine, dispute_id));
                    }
                }
                assert forall|first: u64, second: u64, other: Seq<u8>|
                    #![trigger next.blocks(first, other), next.blocks(second, other)]
                    next.blocks(first, other) && next.blocks(second, other) implies first
                    == second by {
                    if first != fresh {
                        assert(engine.blocks(first, other));
                    }
                    if second != fresh {
                        assert(engine.blocks(second, other));
                    }
                    if first == fresh && second != fresh {
                        assert(other == tx_id);
                        assert(engine.tx_in_progress(tx_id));
                    }
                    if second == fresh && first != fresh {
                        assert(other == tx_id);
                        assert(engine.tx_in_progress(tx_id));
                    }
                }
            },
            EngineOp::Respond { dispute_id: target, caller, proof, proof_valid } => {
                assert(dispute_in_order(engine, target));
                assert forall|dispute_id: u64| #[trigger]
                    next.disputes.contains_key(dispute_id) implies dispute_in_order(
                    next,
                    dispute_id,
                ) by {
                    assert(engine.disputes.contains_key(dispute_id));
                    assert(dispute_in_order(engine, dispute_id));
                }
                assert forall|first: u64, second: u64, other: Seq<u8>|
                    #![trigger next.blocks(first, other), next.blocks(second, other)]
                    next.blocks(first, other) && next.blocks(second, other) implies first
                    == second by {
                    assert(engine.blocks(first, other));
                    assert(engine.blocks(second, other));
                }
            },
            EngineOp::Resolve { dispute_id: target, initiator_valid, respondent_valid } => {
                assert(dispute_in_order(engine, target));
                assert forall|dispute_id: u64| #[trigger]
                    next.disputes.contains_key(dispute_id) implies dispute_in_order(
                    next,
                    dispute_id,
                ) by {
                    assert(engine.disputes.contains_key(dispute_id));
                    assert(dispute_in_order(engine, dispute_id));
                }
                assert forall|dispute_id: u64| #[trigger]
                    next.rulings.contains_key(dispute_id) implies next.disputes.contains_key(
                    dispute_id,
                ) by {
                    if dispute_id != target {
                        assert(engine.rulings.contains_key(dispute_id));
                    }
                }
                assert forall|first: u64, second: u64, other: Seq<u8>|
                    #![trigger next.blocks(first, other), next.blocks(second, other)]
                    next.blocks(first, other) && next.blocks(second, other) implies first
                    == second by {
                    assert(engine.blocks(first, other));
                    assert(engine.blocks(second, other));
                }
            },
        }
    }
}

/// Dispute uniqueness. Over every course of requests, starting from a
/// consistent engine, the engine stays consistent: among the disputes about
/// one transaction at most one is in progress at any time, and every dispute
/// on file is in order.
pub proof fn law_dispute_uniqueness(
    engine: EngineModel,
    course: Seq<(EngineOp, LedgerModel, nat)>,
    first: u64,
    second: u64,
    tx_id: Seq<u8>,
)
    requires
        consistent(engine),
    ensures
        consistent(run(engine, course)),
        run(engine, course).blocks(first, tx_id) && run(engine, course).blocks(second, tx_id)
            ==> first == second,
    decreases course.len(),
{
    if course.len() > 0 {
        law_dispute_uniqueness(engine, course.drop_last(), first, second, tx_id);
        law_step_keeps_consistency(
            run(engine, course.drop_last()),
            course.last().1,
            course.last().0,
            course.last().2,
        );
    }
}

/// While a dispute about a transaction is in progress, no other can be
/// raised about it: a node in good standing is told that the transaction is
/// already disputed.
pub proof fn law_second_raise_is_refused(
    engine: EngineModel,
    ledger: LedgerModel,
    initiator: Seq<char>,
    tx_id: Seq<u8>,
    proof_valid: bool,
    now: nat,
)
    requires
        engine.tx_in_progress(tx_id),
    ensures
        raise_refusal(engine, ledger, initiator, tx_id, proof_valid, now) is Some,
        in_good_standing(ledger, initiator) ==> raise_refusal(
            engine,
            ledger,
            initiator,
            tx_id,
            proof_valid,
            now,
        ) == Some(ContractError::TxAlreadyDisputed),
{
}

/// Once the dispute that blocks a transaction is resolved, the transaction
/// can be disputed again.
pub proof fn law_resolution_frees_transaction(
    engine: EngineModel,
    dispute_id: u64,
    initiator_valid: bool,
    respondent_valid: bool,
    now: nat,
)
    requires
        consistent(engine),
        resolve_refusal(engine, dispute_id, now) is None,
    ensures
        !after_resolve(engine, dispute_id, initiator_valid, respondent_valid, now).tx_in_progress(
            engine.disputes[dispute_id].tx_id,
        ),
{
    let next = after_resolve(engine, dispute_id, initiator_valid, respondent_valid, now);
    let tx_id = engine.disputes[dispute_id].tx_id;
    assert(engine.blocks(dispute_id, tx_id));
    assert forall|other: u64| !next.blocks(other, tx_id) by {
        if next.blocks(other, tx_id) {
            assert(other != dispute_id);
            assert(engine.blocks(other, tx_id));
        }
    }
}

/// Deterministic tie-break. Of two proofs that verify and carry different
/// sequences, the one with the lower sequence wins, whichever of the two
/// parties submitted it: the roles that the order of submission gave the
/// parties do not matter.
pub proof fn law_earlier_sequence_wins(earlier: nat, later: nat)
    requires
        earlier < later,
    ensures
        verdict(earlier, later, true, true) == (Party::Initiator, RulingReason::EarlierSequence),
        verdict(later, earlier, true, true) == (Party::Respondent, RulingReason::EarlierSequence),
{
}

/// A proof that verifies wins over one that does not, whatever their
/// sequences.
pub proof fn law_only_valid_proof_wins(initiator_sequence: nat, respondent_sequence: nat)
    ensures
        verdict(initiator_sequence, respondent_sequence, true, false).0 == Party::Initiator,
        verdict(initiator_sequence, respondent_sequence, false, true).0 == Party::Respondent,
{
}

/// Expiry default. An open dispute that nobody answered can be resolved
/// exactly from the first tick after its deadline; it then expires with a
/// ruling for the initiator that names no loser.
pub proof fn law_unanswered_dispute_expires(
    engine: EngineModel,
    dispute_id: u64,
    initiator_valid: bool,
    respondent_valid: bool,
    now: nat,
)
    requires
        engine.disputes.contains_key(dispute_id),
        engine.disputes[dispute_id].status == DisputeStatus::Open,
    ensures
        resolve_refusal(engine, dispute_id, now) is None <==> now
            > engine.disputes[dispute_id].resolve_by,
        now <= engine.disputes[dispute_id].resolve_by ==> resolve_refusal(engine, dispute_id, now)
            == Some(ContractError::DisputeNotResolvable),
        after_resolve(
            engine,
            dispute_id,
            initiator_valid,
            respondent_valid,
            now,
        ).disputes[dispute_id].status == DisputeStatus::Expired,
        ruling_for(engine.disputes[dispute_id], initiator_valid, respondent_valid, now).winner
            == engine.disputes[dispute_id].initiator,
        ruling_for(engine.disputes[dispute_id], initiator_valid, respondent_valid, now).loser
            is None,
{
}

/// Idempotent terminal queries. Once a dispute has been ruled on, over every
/// course of requests that follows the dispute and its ruling stay as they
/// are: the ruling can be fetched and is always the same, and every further
/// request to resolve the dispute is refused as already resolved.
pub proof fn law_ruling_is_final(
    engine: EngineModel,
    course: Seq<(EngineOp, LedgerModel, nat)>,
    dispute_id: u64,
    now: nat,
)
    requires
        consistent(engine),
        engine.disputes.contains_key(dispute_id),
        engine.disputes[dispute_id].status.terminal(),
    ensures
        consistent(run(engine, course)),
        run(engine, course).disputes.contains_key(dispute_id),
        run(engine, course).disputes[dispute_id] == engine.disputes[dispute_id],
        run(engine, course).rulings.contains_key(dispute_id),
        run(engine, course).rulings[dispute_id] == engine.rulings[dispute_id],
        ruling_refusal(run(engine, course), dispute_id) is None,
        resolve_refusal(run(engine, course), dispute_id, now) == Some(
            ContractError::DisputeAlreadyResolved,
        ),
    decreases course.len(),
{
    assert(dispute_in_order(engine, dispute_id));
    if course.len() > 0 {
        let before = run(engine, course.drop_last());
        law_ruling_is_final(engine, course.drop_last(), dispute_id, now);
        law_step_keeps_consistency(before, course.last().1, course.last().0, course.last().2);
        assert(dispute_in_order(before, dispute_id));
    }
}

/// Carrying out a ruling touches the stake ledger through one slash of the
/// loser and in no other way. It keeps the ledger consistent, and a loser in
/// good standing ends up slashed, with no stake and nothing locked.
pub proof fn law_ruling_slashes_loser(ledger: LedgerModel, ruling: RulingModel, now: nat)
    ensures
        ledger_after_ruling(ledger, ruling, now) == match ruling.loser {
            Some(loser) => crate::relay_registry::laws::step(
                ledger,
                LedgerOp::Slash { address: loser },
                now,
            ),
            None => ledger,
        },
        crate::relay_registry::laws::consistent(ledger) ==> crate::relay_registry::laws::consistent(
            ledger_after_ruling(ledger, ruling, now),
        ),
        ruling.loser is Some && in_good_standing(ledger, ruling.loser->0) ==> {
            let after = ledger_after_ruling(ledger, ruling, now);
            &&& after.nodes[ruling.loser->0].status == NodeStatus::Slashed
            &&& after.nodes[ruling.loser->0].stake == 0
            &&& holdings(after, ruling.loser->0) == 0
        },
{
    if ruling.loser is Some && crate::relay_registry::laws::consistent(ledger) {
        crate::relay_registry::laws::law_step_conserves(
            ledger,
            LedgerOp::Slash { address: ruling.loser->0 },
            now,
            ruling.loser->0,
        );
    }
}

/// A new resolution window that is accepted keeps the engine consistent.
pub proof fn law_window_keeps_consistency(engine: EngineModel, caller: Seq<char>, window: nat)
    requires
        consistent(engine),
        window_refusal(engine, caller, window) is None,
    ensures
        consistent(engine.with_resolution_window(window)),
{
    let next = engine.with_resolution_window(window);
    assert forall|dispute_id: u64| #[trigger]
        next.disputes.contains_key(dispute_id) implies dispute_in_order(next, dispute_id) by {
        assert(engine.disputes.contains_key(dispute_id));
        assert(dispute_in_order(engine, dispute_id));
    }
    assert forall|first: u64, second: u64, tx_id: Seq<u8>|
        #![trigger next.blocks(first, tx_id), next.blocks(second, tx_id)]
        next.blocks(first, tx_id) && next.blocks(second, tx_id) implies first == second by {
        assert(engine.blocks(first, tx_id));
        assert(engine.blocks(second, tx_id));
    }
}

} // verus!
