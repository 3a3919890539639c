use vstd::prelude::*;
use crate::address::Address;
use crate::dispute_resolver::types::{Dispute, DisputeModel, DisputeStatus, Ruling, RulingModel};
use crate::dispute_resolver::errors::ContractError;
use crate::table::Table;

verus! {

/// What the arbitration engine's durable store holds, as mathematical
/// values: the disputes and the rulings, each filed under a dispute
/// identifier, the counter that identifiers are drawn from, and the settings.
pub ghost struct EngineModel {
    /// Disputes by identifier.
    pub disputes: Map<u64, DisputeModel>,
    /// Rulings by the identifier of the dispute they close.
    pub rulings: Map<u64, RulingModel>,
    /// The identifier that was handed out last; `0` before the first.
    pub dispute_count: nat,
    /// Time allowed for a counter-proof after a dispute is raised.
    pub resolution_window: nat,
    /// The address that may change the settings.
    pub admin: Seq<char>,
}

impl EngineModel {
    /// The store of an engine that was just set up for `admin`, with the
    /// shortest resolution window there is.
    pub open spec fn initial(admin: Seq<char>) -> EngineModel {
        EngineModel {
            disputes: Map::empty(),
            rulings: Map::empty(),
            dispute_count: 0,
            resolution_window: 1,
            admin,
        }
    }

    /// The store with `dispute` filed under `dispute_id`.
    pub open spec fn with_dispute(self, dispute_id: u64, dispute: DisputeModel) -> EngineModel {
        EngineModel { disputes: self.disputes.insert(dispute_id, dispute), ..self }
    }

    /// The store with `ruling` filed under `dispute_id`.
    pub open spec fn with_ruling(self, dispute_id: u64, ruling: RulingModel) -> EngineModel {
        EngineModel { rulings: self.rulings.insert(dispute_id, ruling), ..self }
    }

    /// The store with the counter at `dispute_count`.
    pub open spec fn with_dispute_count(self, dispute_count: nat) -> EngineModel {
        EngineModel { dispute_count, ..self }
    }

    /// The store with the resolution window set to `resolution_window`.
    pub open spec fn with_resolution_window(self, resolution_window: nat) -> EngineModel {
        EngineModel { resolution_window, ..self }
    }

    /// Whether the dispute filed under `dispute_id` is about `tx_id` and has
    /// not been ruled on yet.
    pub open spec fn blocks(self, dispute_id: u64, tx_id: Seq<u8>) -> bool {
        &&& self.disputes.contains_key(dispute_id)
        &&& self.disputes[dispute_id].tx_id == tx_id
        &&& self.disputes[dispute_id].status.in_progress()
    }

    /// Whether some dispute about `tx_id` has not been ruled on yet.
    pub open spec fn tx_in_progress(self, tx_id: Seq<u8>) -> bool {
        exists|dispute_id: u64| self.blocks(dispute_id, tx_id)
    }
}

/// The arbitration engine's durable store.
pub struct Storage {
    disputes: Table<u64, Dispute>,
    rulings: Table<u64, Ruling>,
    dispute_count: u64,
    resolution_window: u32,
    admin: Address,
}

impl View for Storage {
    type V = EngineModel;

    closed spec fn view(&self) -> EngineModel {
        EngineModel {
            disputes: self.disputes@,
            rulings: self.rulings@,
            dispute_count: self.dispute_count as nat,
            resolution_window: self.resolution_window as nat,
            admin: self.admin@,
        }
    }
}

impl Storage {
    /// An empty store for an engine that `admin` governs, with a resolution
    /// window of one tick.
    pub fn new(admin: Address) -> (storage: Storage)
        ensures
            storage@ == EngineModel::initial(admin@),
    {
        Storage {
            disputes: Table::new(),
            rulings: Table::new(),
            dispute_count: 0,
            resolution_window: 1,
            admin,
        }
    }
}

/// Whether two transaction identifiers are the same.
pub fn same_tx(left: &[u8; 32], right: &[u8; 32]) -> (equal: bool)
    ensures
        equal == (left@ == right@),
{
    let mut i: usize = 0;
    while i < 32
        invariant
            i <= 32,
            forall|j: int| 0 <= j < i ==> left@[j] == right@[j],
        decreases 32 - i,
    {
        if left[i] != right[i] {
            return false;
        }
        i += 1;
    }
    assert(left@ =~= right@);
    true
}

/// Returns the dispute filed under `dispute_id`, if one exists.
pub fn get_dispute(storage: &Storage, dispute_id: u64) -> (dispute: Option<Dispute>)
    ensures
        dispute is Some == storage@.disputes.contains_key(dispute_id),
        dispute is Some ==> dispute->0@ == storage@.disputes[dispute_id],
{
    match storage.disputes.get(&dispute_id) {
        Some(dispute) => Some(dispute.clone()),
        None => None,
    }
}

/// Persists `dispute` under `dispute_id`.
pub fn set_dispute(storage: &mut Storage, dispute_id: u64, dispute: &Dispute)
    ensures
        final(storage)@ == old(storage)@.with_dispute(dispute_id, dispute@),
{
    storage.disputes.put(dispute_id, dispute.clone());
}

/// Returns the ruling filed under `dispute_id`, if one exists.
pub fn get_ruling(storage: &Storage, dispute_id: u64) -> (ruling: Option<Ruling>)
    ensures
        ruling is Some == storage@.rulings.contains_key(dispute_id),
        ruling is Some ==> ruling->0@ == storage@.rulings[dispute_id],
{
    match storage.rulings.get(&dispute_id) {
        Some(ruling) => Some(ruling.clone()),
        None => None,
    }
}

/// Persists `ruling` under `dispute_id`.
pub fn set_ruling(storage: &mut Storage, dispute_id: u64, ruling: &Ruling)
    ensures
        final(storage)@ == old(storage)@.with_ruling(dispute_id, ruling@),
{
    storage.rulings.put(dispute_id, ruling.clone());
}

/// Returns the identifier that was handed out last; `0` before the first.
pub fn get_dispute_count(storage: &Storage) -> (count: u64)
    ensures
        count == storage@.dispute_count,
{
    storage.dispute_count
}

/// Persists the counter that identifiers are drawn from.
pub fn set_dispute_count(storage: &mut Storage, count: u64)
    ensures
        final(storage)@ == old(storage)@.with_dispute_count(count as nat),
{
    storage.dispute_count = count;
}

/// Moves the counter one on and returns the new identifier. Once the counter
/// is exhausted it stays as it is, and the call fails.
pub fn next_dispute_id(storage: &mut Storage) -> (result: Result<u64, ContractError>)
    ensures
        match result {
            Ok(dispute_id) => {
                &&& old(storage)@.dispute_count < u64::MAX
                &&& dispute_id == old(storage)@.dispute_count + 1
                &&& final(storage)@ == old(storage)@.with_dispute_count(dispute_id as nat)
            },
            Err(error) => {
                &&& old(storage)@.dispute_count == u64::MAX
                &&& error == ContractError::Overflow
                &&& final(storage)@ == old(storage)@
            },
        },
{
    match storage.dispute_count.checked_add(1) {
        Some(next) => {
            storage.dispute_count = next;
            Ok(next)
        },
        None => Err(ContractError::Overflow),
    }
}

/// Returns the configured resolution window.
pub fn get_resolution_window(storage: &Storage) -> (window: u32)
    ensures
        window == storage@.resolution_window,
{
    storage.resolution_window
}

/// Persists the resolution window.
pub fn set_resolution_window(storage: &mut Storage, window: u32)
    ensures
        final(storage)@ == old(storage)@.with_resolution_window(window as nat),
{
    storage.resolution_window = window;
}

/// Returns the address that governs the engine.
pub fn get_admin(storage: &Storage) -> (admin: Address)
    ensures
        admin@ == storage@.admin,
{
    storage.admin.clone()
}

/// Looks for a dispute about `tx_id` that has not been ruled on yet, and
/// returns the identifier of one if there is any.
pub fn find_dispute_in_progress(storage: &Storage, tx_id: &[u8; 32]) -> (found: Option<u64>)
    ensures
        found is Some == storage@.tx_in_progress(tx_id@),
        found is Some ==> storage@.blocks(found->0, tx_id@),
{
    let count: usize = storage.disputes.len();
    let mut i: usize = 0;
    while i < count
        invariant
            i <= count,
            count == storage.disputes.slot_count(),
            forall|j: int|
                0 <= j < i ==> !storage@.blocks(#[trigger] storage.disputes.key_at(j), tx_id@),
        decreases count - i,
    {
        let dispute = storage.disputes.value_at(i);
        let in_progress = match dispute.status {
            DisputeStatus::Open => true,
            DisputeStatus::Responded => true,
            _ => false,
        };
        if in_progress && same_tx(&dispute.tx_id, tx_id) {
            let ghost key = storage.disputes.key_at(i as int);
            assert(storage@.blocks(key, tx_id@));
            return Some(*storage.disputes.key_of(i));
        }
        i += 1;
    }
    proof {
        if storage@.tx_in_progress(tx_id@) {
            let dispute_id = choose|dispute_id: u64| storage@.blocks(dispute_id, tx_id@);
            storage.disputes.lemma_key_has_slot(dispute_id);
        }
    }
    None
}

} // verus!
