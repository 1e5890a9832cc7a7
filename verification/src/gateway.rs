use vstd::prelude::*;
use crate::errors::CommandError;
use crate::manifest;
use crate::manifest::found_at;
use crate::manifest::has_entry;
use crate::manifest::ids_of;
use crate::state::AppState;

verus! {

/// A grant the connection is instructed to perform: set the authorized
/// witnesses of `governance_id` to exactly `witness`, in that order. The
/// manifest is the authoritative intent; whatever the connection held for
/// that governance before is overwritten, not merged.
pub struct WitnessGrant {
    pub governance_id: String,
    pub witness: Vec<String>,
}

impl<C> AppState<C> {
    /// The `getConfigGovernanceIds` command: the governance ids named by the
    /// loaded manifest, in file order, duplicates kept. Fails with
    /// `NotInitialized` while the manifest slot is empty; the connection
    /// slot plays no part.
    pub fn get_config_governance_ids(&self) -> (r: Result<Vec<String>, CommandError>)
        ensures
            r is Ok <==> self.manifest_ready(),
            match r {
                Ok(ids) => ids@ == ids_of(self.manifest_entries()),
                Err(e) => e == CommandError::NotInitialized,
            },
    {
        match &self.manifest_slot {
            Some(entries) => Ok(manifest::governance_ids(entries)),
            None => Err(CommandError::NotInitialized),
        }
    }

    /// The decision of the `putAuth` command: which grant to perform on the
    /// connection, or why none is performed.
    ///
    /// Fails with `NotInitialized` while either slot is empty — the
    /// connection is checked first, the manifest second. With both filled,
    /// the manifest is searched for `governance`: no entry means
    /// `GovernanceNotFound` and no grant; otherwise the grant carries the
    /// first matching entry's governance id and its witness list, unchanged
    /// and in order. Later duplicate entries are unreachable.
    pub fn put_auth_grant(&self, governance: &String) -> (r: Result<WitnessGrant, CommandError>)
        ensures
            r is Ok <==> (self.connection_ready() && self.manifest_ready() && has_entry(
                self.manifest_entries(),
                governance@,
            )),
            match r {
                Ok(grant) => forall|i: int|
                    found_at(self.manifest_entries(), governance@, i) ==> {
                        &&& grant.governance_id == self.manifest_entries()[i].governance_id
                        &&& grant.witness@ == self.manifest_entries()[i].witness@
                    },
                Err(e) => {
                    if !self.connection_ready() || !self.manifest_ready() {
                        e == CommandError::NotInitialized
                    } else {
                        e == CommandError::GovernanceNotFound
                    }
                },
            },
    {
        if self.connection_slot.is_none() {
            return Err(CommandError::NotInitialized);
        }
        match &self.manifest_slot {
            None => Err(CommandError::NotInitialized),
            Some(entries) => {
                match manifest::find_first(entries, governance) {
                    None => Err(CommandError::GovernanceNotFound),
                    Some(i) => {
                        let entry = &entries[i];
                        Ok(
                            WitnessGrant {
                                governance_id: entry.governance_id.clone(),
                                witness: manifest::clone_strings(&entry.witness),
                            },
                        )
                    },
                }
            },
        }
    }
}

/// Before any successful initialization — both slots still empty — every
/// command that needs a slot fails: whatever `connection_ref` (which guards
/// the identity reads, the live queries and the grant calls),
/// `get_config_governance_ids` or `put_auth_grant` returns on such a state
/// is `NotInitialized`. `request_stop` and `install_connection` take the
/// state mutably; their own contracts fail by the same emptiness test.
pub proof fn lemma_uninitialized_rejects<C>(s: &AppState<C>, governance: &String)
    requires
        !s.connection_ready(),
        !s.manifest_ready(),
    ensures
        forall|r: Result<&C, CommandError>|
            call_ensures(AppState::<C>::connection_ref, (s,), r) ==> r == Err::<
                &C,
                CommandError,
            >(CommandError::NotInitialized),
        forall|r: Result<Vec<String>, CommandError>|
            call_ensures(AppState::<C>::get_config_governance_ids, (s,), r) ==> r == Err::<
                Vec<String>,
                CommandError,
            >(CommandError::NotInitialized),
        forall|r: Result<WitnessGrant, CommandError>|
            call_ensures(AppState::<C>::put_auth_grant, (s, governance), r) ==> r == Err::<
                WitnessGrant,
                CommandError,
            >(CommandError::NotInitialized),
{
}

} // verus!
