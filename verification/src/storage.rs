//! Carrying the state over a restart.
//!
//! The host owns the storage and its format. What reaches this module is the
//! one entry that belongs to the application, already read: nothing, something
//! that could not be decoded, or a state.

use vstd::prelude::*;
use crate::app::TemplateApp;

verus! {

/// The entry of the host's storage that holds the application state.
#[derive(Clone, Copy, Debug, PartialEq, Eq, Structural)]
pub enum StorageSlot {
    /// Nothing was stored.
    Empty,
    /// Something was stored that is not a state.
    Malformed,
    /// A state was stored.
    State(TemplateApp),
}

impl StorageSlot {
    /// The state that this entry stands for: the stored one, or that of a
    /// first run where there is none.
    pub open spec fn restored(self) -> TemplateApp {
        match self {
            StorageSlot::State(app) => app,
            StorageSlot::Empty | StorageSlot::Malformed => TemplateApp::initial(),
        }
    }

    /// The state to start from, given this entry. Never fails: an entry that
    /// is missing or malformed gives the state of a first run.
    pub fn restore(&self) -> (app: TemplateApp)
        ensures
            app == self.restored(),
    {
        match self {
            StorageSlot::State(app) => *app,
            StorageSlot::Empty | StorageSlot::Malformed => TemplateApp::default(),
        }
    }
}

impl TemplateApp {
    /// The state after startup. With persistence switched on and a storage
    /// at hand, it is what the storage's entry stands for; else it is
    /// unchanged.
    pub open spec fn after_setup(
        self,
        persistence_enabled: bool,
        storage: Option<StorageSlot>,
    ) -> TemplateApp {
        match storage {
            Some(slot) if persistence_enabled => slot.restored(),
            _ => self,
        }
    }

    /// The storage's entry after shutdown. With persistence switched on it
    /// holds the state; else it is unchanged.
    pub open spec fn slot_after_save(
        self,
        persistence_enabled: bool,
        slot: StorageSlot,
    ) -> StorageSlot {
        if persistence_enabled {
            StorageSlot::State(self)
        } else {
            slot
        }
    }

    /// Startup: takes up the state that an earlier run left behind. `storage`
    /// is `None` where the host offers no storage.
    pub fn setup(&mut self, persistence_enabled: bool, storage: Option<StorageSlot>)
        ensures
            *final(self) == old(self).after_setup(persistence_enabled, storage),
    {
        if persistence_enabled {
            if let Some(slot) = storage {
                *self = slot.restore();
            }
        }
    }

    /// Shutdown: leaves the state behind for the next run.
    pub fn save(&self, persistence_enabled: bool, storage: &mut StorageSlot)
        ensures
            *final(storage) == self.slot_after_save(persistence_enabled, *old(storage)),
    {
        if persistence_enabled {
            *storage = StorageSlot::State(*self);
        }
    }

    /// What one run saves, the next run starts from, whatever the storage
    /// held before and whatever state the next run was created with.
    pub proof fn lemma_save_then_setup_restores(self, before: StorageSlot, fresh: TemplateApp)
        ensures
            fresh.after_setup(true, Some(self.slot_after_save(true, before))) == self,
    {
    }

    /// Startup never fails: where nothing usable is stored, the state is that
    /// of a first run; where persistence is off or no storage is offered, the
    /// state stays as it was created.
    pub proof fn lemma_setup_falls_back(self, slot: StorageSlot, storage: Option<StorageSlot>)
        ensures
            self.after_setup(true, Some(StorageSlot::Empty)) == TemplateApp::initial(),
            self.after_setup(true, Some(StorageSlot::Malformed)) == TemplateApp::initial(),
            self.after_setup(false, storage) == self,
            self.after_setup(true, None) == self,
    {
    }

    /// With persistence off nothing is written, so a later startup does not
    /// see this run's state.
    pub proof fn lemma_save_disabled_keeps_storage(self, before: StorageSlot)
        ensures
            self.slot_after_save(false, before) == before,
    {
    }
}

} // verus!
