//! The configuration record and the store that keeps it.

use vstd::prelude::*;
use crate::address::{CanonicalAddr, HumanAddr};
use crate::error::ContractError;

verus! {

/// The contract's one lasting record.
#[derive(Debug, PartialEq, Eq)]
pub struct State {
    /// Where payments are sent. Only the owner may change it.
    pub receive_addr: HumanAddr,
    /// Who initialized the contract. Never changes afterwards.
    pub owner: CanonicalAddr,
}

impl Clone for State {
    /// A second record with the same addresses.
    fn clone(&self) -> (copy: State)
        ensures
            copy@ == self@,
    {
        State { receive_addr: self.receive_addr.clone(), owner: self.owner.clone() }
    }
}

/// A record as contracts speak of it.
pub struct StateView {
    pub receive_addr: Seq<char>,
    pub owner: Seq<u8>,
}

impl View for State {
    type V = StateView;

    open spec fn view(&self) -> StateView {
        StateView { receive_addr: self.receive_addr@, owner: self.owner@ }
    }
}

/// What the store's one slot holds.
#[derive(Debug, PartialEq, Eq)]
enum Slot {
    /// Nothing was ever written.
    Vacant,
    /// The record.
    Holding(State),
    /// Something is there that cannot be read back as a record.
    Unreadable,
}

/// The slot as contracts speak of it.
pub enum SlotView {
    Vacant,
    Holding(StateView),
    Unreadable,
}

/// The place where the record is kept between calls. Reading fails where the
/// slot holds no readable record; writing fails where the store refuses writes.
#[derive(Debug, PartialEq, Eq)]
pub struct ConfigStore {
    slot: Slot,
    writable: bool,
}

/// The store as contracts speak of it.
pub struct StorageView {
    pub slot: SlotView,
    pub writable: bool,
}

impl View for ConfigStore {
    type V = StorageView;

    closed spec fn view(&self) -> StorageView {
        StorageView {
            slot: match self.slot {
                Slot::Vacant => SlotView::Vacant,
                Slot::Holding(state) => SlotView::Holding(state@),
                Slot::Unreadable => SlotView::Unreadable,
            },
            writable: self.writable,
        }
    }
}

/// What reading a slot gives: the record, or the reason there is none.
pub open spec fn load_result(slot: SlotView) -> Result<StateView, ContractError> {
    match slot {
        SlotView::Vacant => Err(ContractError::Uninitialized),
        SlotView::Holding(state) => Ok(state),
        SlotView::Unreadable => Err(ContractError::StorageFailure),
    }
}

/// What writing `state` does to a store, and what the writer is told.
pub open spec fn save_result(store: StorageView, state: StateView) -> (
    StorageView,
    Result<(), ContractError>,
) {
    if store.writable {
        (StorageView { slot: SlotView::Holding(state), writable: true }, Ok(()))
    } else {
        (store, Err(ContractError::StorageFailure))
    }
}

/// A result with the record in it taken by its view.
pub open spec fn state_result_view(r: Result<State, ContractError>) -> Result<
    StateView,
    ContractError,
> {
    match r {
        Ok(state) => Ok(state@),
        Err(e) => Err(e),
    }
}

impl Clone for ConfigStore {
    /// A second store that holds the same.
    fn clone(&self) -> (copy: ConfigStore)
        ensures
            copy@ == self@,
    {
        let slot = match &self.slot {
            Slot::Vacant => Slot::Vacant,
            Slot::Holding(state) => Slot::Holding(state.clone()),
            Slot::Unreadable => Slot::Unreadable,
        };
        ConfigStore { slot, writable: self.writable }
    }
}

impl ConfigStore {
    /// A store in which nothing was written yet.
    pub fn new() -> (store: ConfigStore)
        ensures
            store@ == (StorageView { slot: SlotView::Vacant, writable: true }),
    {
        ConfigStore { slot: Slot::Vacant, writable: true }
    }

    /// A store that holds `state`.
    pub fn holding(state: State) -> (store: ConfigStore)
        ensures
            store@ == (StorageView { slot: SlotView::Holding(state@), writable: true }),
    {
        ConfigStore { slot: Slot::Holding(state), writable: true }
    }

    /// A store whose content cannot be read back.
    pub fn unreadable() -> (store: ConfigStore)
        ensures
            store@ == (StorageView { slot: SlotView::Unreadable, writable: true }),
    {
        ConfigStore { slot: Slot::Unreadable, writable: true }
    }

    /// The same store, refusing every write from now on.
    pub fn read_only(self) -> (store: ConfigStore)
        ensures
            store@ == (StorageView { slot: self@.slot, writable: false }),
    {
        ConfigStore { slot: self.slot, writable: false }
    }

    /// Reads the record.
    pub fn load(&self) -> (r: Result<State, ContractError>)
        ensures
            state_result_view(r) == load_result(self@.slot),
    {
        match &self.slot {
            Slot::Vacant => Err(ContractError::Uninitialized),
            Slot::Holding(state) => Ok(state.clone()),
            Slot::Unreadable => Err(ContractError::StorageFailure),
        }
    }

    /// Writes the record over whatever the slot held, unless the store refuses
    /// writes: then nothing changes.
    pub fn save(&mut self, state: State) -> (r: Result<(), ContractError>)
        ensures
            (final(self)@, r) == save_result(old(self)@, state@),
    {
        if self.writable {
            self.slot = Slot::Holding(state);
            Ok(())
        } else {
            Err(ContractError::StorageFailure)
        }
    }
}

} // verus!
