//! The state store: where the record of a release is kept between runs.
//!
//! The store has two slots, the primary record and its backup. A slot is
//! empty, holds something unreadable, or holds a document: a release state
//! tagged with the schema version it was written under. Writing a slot
//! replaces it as a whole.

use vstd::prelude::*;
use vstd::string::*;
use crate::error::StateError;
use crate::state::ReleaseState;
use crate::text::{decimal, decimal_text};

verus! {

/// The schema version under which documents are written and accepted.
pub const SCHEMA_VERSION: u32 = 1;

/// What a slot of the store holds.
#[derive(Debug)]
pub enum StoredRecord {
    /// Content that cannot be read as a document.
    Unreadable,
    /// A release state, tagged with its schema version.
    Document { schema_version: u32, state: ReleaseState },
}

impl StoredRecord {
    /// The record is a document of the current schema version.
    pub open spec fn valid(self) -> bool {
        self matches StoredRecord::Document { schema_version, .. } && schema_version
            == SCHEMA_VERSION
    }
}

/// How a load ends, as a function of what the two slots hold.
pub enum LoadOutcome {
    /// A state was read; `recovered_from_backup` tells from which slot.
    Loaded { state: ReleaseState, recovered_from_backup: bool },
    /// The primary slot is empty: no release is in progress.
    NotFound,
    /// The primary slot is unreadable and the backup is no valid document.
    Corrupted,
    /// The primary slot holds a document of another schema version, and the
    /// backup is no valid document.
    VersionMismatch { found: u32 },
}

/// The outcome of a load: the primary document where it is valid; else the
/// backup where that is valid; else the failure of the primary slot.
pub open spec fn load_outcome(primary: Option<StoredRecord>, backup: Option<StoredRecord>) -> LoadOutcome {
    match primary {
        None => LoadOutcome::NotFound,
        Some(StoredRecord::Document { schema_version, state }) if schema_version
            == SCHEMA_VERSION => LoadOutcome::Loaded { state, recovered_from_backup: false },
        Some(damaged) => match backup {
            Some(StoredRecord::Document { schema_version, state }) if schema_version
                == SCHEMA_VERSION => LoadOutcome::Loaded { state, recovered_from_backup: true },
            _ => match damaged {
                StoredRecord::Document { schema_version, .. } => LoadOutcome::VersionMismatch {
                    found: schema_version,
                },
                StoredRecord::Unreadable => LoadOutcome::Corrupted,
            },
        },
    }
}

/// A loaded release state.
#[derive(Debug)]
pub struct LoadResult<'a> {
    /// The state that was read.
    pub state: &'a ReleaseState,
    /// Whether it was read from the backup because the primary was damaged.
    pub recovered_from_backup: bool,
}

/// The store. Its slots refer to records that it keeps, so that a backup
/// shares the record of the primary slot it was taken from.
#[derive(Debug)]
pub struct StateStore {
    records: Vec<StoredRecord>,
    primary: Option<usize>,
    backup: Option<usize>,
}

impl StateStore {
    /// What the primary slot holds.
    pub closed spec fn primary_slot(self) -> Option<StoredRecord> {
        match self.primary {
            Some(i) => Some(self.records@[i as int]),
            None => None,
        }
    }

    /// What the backup slot holds.
    pub closed spec fn backup_slot(self) -> Option<StoredRecord> {
        match self.backup {
            Some(i) => Some(self.records@[i as int]),
            None => None,
        }
    }

    /// The slots refer to records that the store keeps.
    pub closed spec fn wf(self) -> bool {
        &&& self.primary matches Some(i) ==> i < self.records@.len()
        &&& self.backup matches Some(i) ==> i < self.records@.len()
    }

    /// A release is in progress: the primary slot is not empty.
    pub open spec fn active(self) -> bool {
        self.primary_slot() is Some
    }

    /// A store with both slots empty.
    pub fn new() -> (store: StateStore)
        ensures
            store.wf(),
            store.primary_slot() is None,
            store.backup_slot() is None,
    {
        StateStore { records: Vec::new(), primary: None, backup: None }
    }

    /// A store whose slots hold what was found on the medium.
    pub fn with_slots(primary: Option<StoredRecord>, backup: Option<StoredRecord>) -> (store:
        StateStore)
        ensures
            store.wf(),
            store.primary_slot() == primary,
            store.backup_slot() == backup,
    {
        let mut store = StateStore { records: Vec::new(), primary: None, backup: None };
        match primary {
            Some(record) => {
                store.primary = Some(store.records.len());
                store.records.push(record);
            },
            None => {},
        }
        match backup {
            Some(record) => {
                store.backup = Some(store.records.len());
                store.records.push(record);
            },
            None => {},
        }
        store
    }

    /// Writes `state` to the primary slot under the current schema version.
    /// The backup slot is left as it is.
    pub fn save_state(&mut self, state: ReleaseState)
        requires
            old(self).wf(),
        ensures
            final(self).wf(),
            final(self).primary_slot() == Some(
                (StoredRecord::Document { schema_version: SCHEMA_VERSION, state }),
            ),
            final(self).backup_slot() == old(self).backup_slot(),
            final(self).active(),
    {
        let at = self.records.len();
        self.records.push(StoredRecord::Document { schema_version: SCHEMA_VERSION, state });
        self.primary = Some(at);
    }

    /// Damages the primary slot, as a torn or foreign file would.
    pub fn corrupt_primary(&mut self)
        requires
            old(self).wf(),
        ensures
            final(self).wf(),
            final(self).primary_slot() == Some(StoredRecord::Unreadable),
            final(self).backup_slot() == old(self).backup_slot(),
    {
        let at = self.records.len();
        self.records.push(StoredRecord::Unreadable);
        self.primary = Some(at);
    }

    /// Reads the release state.
    ///
    /// Returns the primary document where it is of the current schema
    /// version. Where the primary slot is damaged, returns the backup
    /// document and says so. Fails with `NotFound` where the primary slot is
    /// empty; with `Corrupted` where it is unreadable and the backup is no
    /// valid document; with `VersionMismatch` where it is of another schema
    /// version and the backup is no valid document.
    pub fn load_state(&self) -> (r: Result<LoadResult<'_>, StateError>)
        requires
            self.wf(),
        ensures
            match load_outcome(self.primary_slot(), self.backup_slot()) {
                LoadOutcome::Loaded { state, recovered_from_backup } => r matches Ok(loaded)
                    && *loaded.state == state && loaded.recovered_from_backup
                    == recovered_from_backup,
                LoadOutcome::NotFound => r matches Err(StateError::NotFound),
                LoadOutcome::Corrupted => r matches Err(StateError::Corrupted { reason }) && reason@
                    == "state record and its backup are unreadable"@,
                LoadOutcome::VersionMismatch { found } => r matches Err(
                    StateError::VersionMismatch { expected, found: text },
                ) && expected@ == decimal_text(SCHEMA_VERSION as nat) && text@ == decimal_text(
                    found as nat,
                ),
            },
    {
        let at = match self.primary {
            None => {
                return Err(StateError::NotFound);
            },
            Some(at) => at,
        };
        match &self.records[at] {
            StoredRecord::Document { schema_version, state } => {
                if *schema_version == SCHEMA_VERSION {
                    return Ok(LoadResult { state, recovered_from_backup: false });
                }
            },
            StoredRecord::Unreadable => {},
        }
        match self.backup {
            Some(spare) => {
                match &self.records[spare] {
                    StoredRecord::Document { schema_version, state } => {
                        if *schema_version == SCHEMA_VERSION {
                            return Ok(LoadResult { state, recovered_from_backup: true });
                        }
                    },
                    StoredRecord::Unreadable => {},
                }
            },
            None => {},
        }
        match &self.records[at] {
            StoredRecord::Document { schema_version, .. } => Err(
                StateError::VersionMismatch {
                    expected: decimal(SCHEMA_VERSION as u64),
                    found: decimal(*schema_version as u64),
                },
            ),
            StoredRecord::Unreadable => Err(
                StateError::Corrupted {
                    reason: String::from_str("state record and its backup are unreadable"),
                },
            ),
        }
    }

    /// Snapshots the primary slot to the backup slot. Returns whether there
    /// was anything to snapshot; where the primary slot is empty the backup
    /// is left as it is.
    pub fn create_backup(&mut self) -> (done: bool)
        requires
            old(self).wf(),
        ensures
            final(self).wf(),
            done == old(self).active(),
            final(self).primary_slot() == old(self).primary_slot(),
            final(self).backup_slot() == (if done {
                old(self).primary_slot()
            } else {
                old(self).backup_slot()
            }),
    {
        match self.primary {
            Some(at) => {
                self.backup = Some(at);
                true
            },
            None => false,
        }
    }

    /// Removes the active record, and the backup too where asked.
    pub fn cleanup_state(&mut self, remove_backup: bool)
        requires
            old(self).wf(),
        ensures
            final(self).wf(),
            final(self).primary_slot() is None,
            !final(self).active(),
            final(self).backup_slot() == (if remove_backup {
                None
            } else {
                old(self).backup_slot()
            }),
    {
        self.primary = None;
        if remove_backup {
            self.backup = None;
        }
    }

    /// Whether a release is in progress, without reading its record.
    pub fn has_active_release(&self) -> (r: bool)
        ensures
            r == self.active(),
    {
        self.primary.is_some()
    }
}

/// What was saved is what a load returns, whatever the backup holds.
pub proof fn lemma_save_then_load(state: ReleaseState, backup: Option<StoredRecord>)
    ensures
        load_outcome(
            Some(StoredRecord::Document { schema_version: SCHEMA_VERSION, state }),
            backup,
        ) == (LoadOutcome::Loaded { state, recovered_from_backup: false }),
{
}

/// With a damaged primary slot and a valid backup, a load returns the
/// backup's state and says that it was recovered.
pub proof fn lemma_recovers_from_backup(primary: StoredRecord, state: ReleaseState)
    requires
        !primary.valid(),
    ensures
        load_outcome(
            Some(primary),
            Some(StoredRecord::Document { schema_version: SCHEMA_VERSION, state }),
        ) == (LoadOutcome::Loaded { state, recovered_from_backup: true }),
{
}

} // verus!
