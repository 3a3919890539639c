use vstd::prelude::*;
use crate::address::Address;

verus! {

/// Where a dispute stands.
#[derive(Copy, Clone, Debug, PartialEq, Eq, Structural)]
pub enum DisputeStatus {
    /// Raised, and waiting for a counter-proof.
    Open,
    /// A counter-proof has arrived; the dispute can be resolved.
    Responded,
    /// Ruled on by comparing the two proofs.
    Resolved,
    /// Ruled for the initiator because no counter-proof arrived in time.
    Expired,
}

impl DisputeStatus {
    /// Whether a dispute in this state still blocks its transaction: it has
    /// not been ruled on yet.
    pub open spec fn in_progress(self) -> bool {
        self == DisputeStatus::Open || self == DisputeStatus::Responded
    }

    /// Whether the dispute has been ruled on.
    pub open spec fn terminal(self) -> bool {
        self == DisputeStatus::Resolved || self == DisputeStatus::Expired
    }
}

/// A signed claim about the state of the relay chain at one position.
#[derive(Copy, Clone, Debug, PartialEq, Eq)]
pub struct RelayChainProof {
    /// Signature over the relay chain hash.
    pub signature: [u8; 64],
    /// Hash of the relay chain at the point of signing.
    pub chain_hash: [u8; 32],
    /// Sequence number in the relay chain.
    pub sequence: u64,
}

/// What a [`RelayChainProof`] holds, as mathematical values.
pub ghost struct ProofModel {
    pub signature: Seq<u8>,
    pub chain_hash: Seq<u8>,
    pub sequence: nat,
}

impl View for RelayChainProof {
    type V = ProofModel;

    open spec fn view(&self) -> ProofModel {
        ProofModel {
            signature: self.signature@,
            chain_hash: self.chain_hash@,
            sequence: self.sequence as nat,
        }
    }
}

/// One arbitration case about a disputed transaction.
#[derive(Debug, PartialEq, Eq)]
pub struct Dispute {
    /// Unique dispute identifier.
    pub dispute_id: u64,
    /// The transaction under dispute.
    pub tx_id: [u8; 32],
    /// Address that raised the dispute.
    pub initiator: Address,
    /// Address of the counter-party, once it has responded.
    pub respondent: Option<Address>,
    /// Relay chain proof from the initiator.
    pub initiator_proof: RelayChainProof,
    /// Counter-proof from the respondent, once it has responded.
    pub respondent_proof: Option<RelayChainProof>,
    /// Open, Responded, Resolved, or Expired.
    pub status: DisputeStatus,
    /// Time at which the dispute was raised.
    pub raised_at: u64,
    /// Last time at which a counter-proof is accepted.
    pub resolve_by: u64,
}

/// What a [`Dispute`] holds, as mathematical values.
pub ghost struct DisputeModel {
    pub dispute_id: nat,
    pub tx_id: Seq<u8>,
    pub initiator: Seq<char>,
    pub respondent: Option<Seq<char>>,
    pub initiator_proof: ProofModel,
    pub respondent_proof: Option<ProofModel>,
    pub status: DisputeStatus,
    pub raised_at: nat,
    pub resolve_by: nat,
}

impl View for Dispute {
    type V = DisputeModel;

    open spec fn view(&self) -> DisputeModel {
        DisputeModel {
            dispute_id: self.dispute_id as nat,
            tx_id: self.tx_id@,
            initiator: self.initiator@,
            respondent: match self.respondent {
                Some(address) => Some(address@),
                None => None,
            },
            initiator_proof: self.initiator_proof@,
            respondent_proof: match self.respondent_proof {
                Some(proof) => Some(proof@),
                None => None,
            },
            status: self.status,
            raised_at: self.raised_at as nat,
            resolve_by: self.resolve_by as nat,
        }
    }
}

impl Clone for Dispute {
    fn clone(&self) -> (copy: Dispute)
        ensures
            copy@ == self@,
    {
        Dispute {
            dispute_id: self.dispute_id,
            tx_id: self.tx_id,
            initiator: self.initiator.clone(),
            respondent: match &self.respondent {
                Some(address) => Some(address.clone()),
                None => None,
            },
            initiator_proof: self.initiator_proof,
            respondent_proof: self.respondent_proof,
            status: self.status,
            raised_at: self.raised_at,
            resolve_by: self.resolve_by,
        }
    }
}

/// One of the two parties to a dispute.
#[derive(Copy, Clone, Debug, PartialEq, Eq, Structural)]
pub enum Party {
    /// The party that raised the dispute.
    Initiator,
    /// The party that answered it with a counter-proof.
    Respondent,
}

/// The grounds on which a ruling rests.
#[derive(Copy, Clone, Debug, PartialEq, Eq, Structural)]
pub enum RulingReason {
    /// No counter-proof arrived before the deadline.
    NoResponse,
    /// Both proofs verify, and the winner's proof is the earlier one.
    EarlierSequence,
    /// Both proofs verify at the same position; the initiator wins by policy.
    SequenceTie,
    /// Only the winner's proof verifies.
    OnlyValidProof,
    /// Neither proof verifies; the initiator wins by policy.
    NoValidProof,
}

/// The final outcome of a dispute.
#[derive(Debug, PartialEq, Eq)]
pub struct Ruling {
    /// Address that won the dispute.
    pub winner: Address,
    /// Address that lost and is slashed; nobody where the dispute expired
    /// without a counter-party.
    pub loser: Option<Address>,
    /// Brief explanation of the ruling.
    pub reason: String,
    /// Time at which the ruling was issued.
    pub resolved_at: u64,
}

/// What a [`Ruling`] holds, as mathematical values.
pub ghost struct RulingModel {
    pub winner: Seq<char>,
    pub loser: Option<Seq<char>>,
    pub reason: Seq<char>,
    pub resolved_at: nat,
}

impl View for Ruling {
    type V = RulingModel;

    open spec fn view(&self) -> RulingModel {
        RulingModel {
            winner: self.winner@,
            loser: match self.loser {
                Some(address) => Some(address@),
                None => None,
            },
            reason: self.reason@,
            resolved_at: self.resolved_at as nat,
        }
    }
}

impl Clone for Ruling {
    fn clone(&self) -> (copy: Ruling)
        ensures
            copy@ == self@,
    {
        Ruling {
            winner: self.winner.clone(),
            loser: match &self.loser {
                Some(address) => Some(address.clone()),
                None => None,
            },
            reason: self.reason.clone(),
            resolved_at: self.resolved_at,
        }
    }
}

impl RulingReason {
    /// A brief explanation of the ruling, in words.
    pub fn text(&self) -> (text: String)
        ensures
            text@ == self.words(),
    {
        match self {
            RulingReason::NoResponse => "no counter-proof arrived before the deadline".to_owned(),
            RulingReason::EarlierSequence => "the winning proof has the earlier sequence".to_owned(),
            RulingReason::SequenceTie => "both proofs have the same sequence; the initiator wins".to_owned(),
            RulingReason::OnlyValidProof => "only the winning proof verifies".to_owned(),
            RulingReason::NoValidProof => "neither proof verifies; the initiator wins".to_owned(),
        }
    }

    /// The explanation that [`RulingReason::text`] gives.
    pub open spec fn words(self) -> Seq<char> {
        match self {
            RulingReason::NoResponse => "no counter-proof arrived before the deadline"@,
            RulingReason::EarlierSequence => "the winning proof has the earlier sequence"@,
            RulingReason::SequenceTie => "both proofs have the same sequence; the initiator wins"@,
            RulingReason::OnlyValidProof => "only the winning proof verifies"@,
            RulingReason::NoValidProof => "neither proof verifies; the initiator wins"@,
        }
    }
}

} // verus!
