//! The governance contracts: export and retention, for callers of their own.
use crate::access;
use crate::access::admits;
use crate::clock::Timestamp;
use crate::config::ProjectsConfig;
use crate::export;
use crate::export::{CollectExportResponse, MAX_EXPORT_BYTES};
use crate::failure;
use crate::failure::{answer_governance, GovernanceError, PluginError, StorageError};
use crate::model::{ApplyRetentionRequest, CollectExportRequest};
use crate::retention;
use crate::service;
use crate::service::{unprepared, ProjectsService};
use crate::store::Store;
use crate::text;
use crate::validate;
use crate::validate::{valid_export, valid_retention};
use vstd::prelude::*;

verus! {

/// Whether the caller is one of the governance callers.
pub open spec fn is_governance_caller(caller: Option<String>, config: ProjectsConfig) -> bool {
    access::is_admitted(text::text_of(caller), config.governance_callers@)
}

/// Whether the caller is one of the governance callers.
pub fn governance_caller(caller: &Option<String>, config: &ProjectsConfig) -> (answer: bool)
    ensures
        answer == is_governance_caller(*caller, *config),
{
    admits(caller, &config.governance_callers)
}

/// Whether `answer` is what the store makes of an export.
pub open spec fn export_handled(
    s: Store,
    r: CollectExportRequest,
    answer: Result<CollectExportResponse, PluginError<GovernanceError>>,
) -> bool {
    exists|assigned: Seq<String>, stored: Result<CollectExportResponse, StorageError>|
        {
            &&& #[trigger] export::export_outcome(s, r, MAX_EXPORT_BYTES as int, assigned, stored)
            &&& answer == failure::governance_result(stored)
        }
}

/// Whether `answer` is what the store makes of a retention action.
pub open spec fn retention_handled(
    before: Store,
    after: Store,
    r: ApplyRetentionRequest,
    now: Timestamp,
    answer: Result<String, PluginError<GovernanceError>>,
) -> bool {
    exists|stored: Result<String, StorageError>|
        {
            &&& #[trigger] retention::retention_outcome(before, after, r, now, stored)
            &&& answer == failure::governance_result(stored)
        }
}

impl ProjectsService {
    /// Handles a request to export what a subject wrote.
    pub fn collect_export(
        &self,
        config: &ProjectsConfig,
        caller: &Option<String>,
        request: &CollectExportRequest,
    ) -> (answer: Result<CollectExportResponse, PluginError<GovernanceError>>)
        ensures
            if !is_governance_caller(*caller, *config) {
                answer == Err::<CollectExportResponse, PluginError<GovernanceError>>(
                    PluginError::Domain(GovernanceError::Forbidden),
                )
            } else if !validate::is_export(*request) {
                answer == Err::<CollectExportResponse, PluginError<GovernanceError>>(
                    PluginError::Domain(GovernanceError::InvalidRequest),
                )
            } else if self.store is None {
                answer matches Err(PluginError::Runtime(failure)) && service::is_unprepared(failure)
            } else {
                export_handled(self.store->0, *request, answer)
            },
    {
        if !governance_caller(caller, config) {
            return Err(PluginError::Domain(GovernanceError::Forbidden));
        }
        if !valid_export(request) {
            return Err(PluginError::Domain(GovernanceError::InvalidRequest));
        }
        match &self.store {
            Some(store) => {
                let stored = store.collect_export(request, MAX_EXPORT_BYTES);
                proof {
                    let assigned = choose|assigned: Seq<String>|
                        export::export_outcome(
                            *store,
                            *request,
                            MAX_EXPORT_BYTES as int,
                            assigned,
                            stored,
                        );
                    assert(export::export_outcome(
                        *store,
                        *request,
                        MAX_EXPORT_BYTES as int,
                        assigned,
                        stored,
                    ));
                }
                answer_governance(stored)
            },
            None => Err(PluginError::Runtime(unprepared())),
        }
    }

    /// Handles a request to delete or anonymize what a subject wrote.
    pub fn apply_retention(
        &mut self,
        config: &ProjectsConfig,
        caller: &Option<String>,
        request: &ApplyRetentionRequest,
        now: &Timestamp,
    ) -> (answer: Result<String, PluginError<GovernanceError>>)
        ensures
            if !is_governance_caller(*caller, *config) {
                &&& *final(self) == *old(self)
                &&& answer == Err::<String, PluginError<GovernanceError>>(
                    PluginError::Domain(GovernanceError::Forbidden),
                )
            } else if !validate::is_retention(*request) {
                &&& *final(self) == *old(self)
                &&& answer == Err::<String, PluginError<GovernanceError>>(
                    PluginError::Domain(GovernanceError::InvalidRequest),
                )
            } else if old(self).store is None {
                &&& *final(self) == *old(self)
                &&& answer matches Err(PluginError::Runtime(failure))
                &&& service::is_unprepared(failure)
            } else {
                &&& final(self).store is Some
                &&& retention_handled(
                    old(self).store->0,
                    final(self).store->0,
                    *request,
                    *now,
                    answer,
                )
            },
    {
        if !governance_caller(caller, config) {
            return Err(PluginError::Domain(GovernanceError::Forbidden));
        }
        if !valid_retention(request) {
            return Err(PluginError::Domain(GovernanceError::InvalidRequest));
        }
        match &mut self.store {
            Some(store) => {
                let stored = store.apply_retention(request, now);
                assert(retention::retention_outcome(
                    old(self).store->0,
                    *store,
                    *request,
                    *now,
                    stored,
                ));
                answer_governance(stored)
            },
            None => Err(PluginError::Runtime(unprepared())),
        }
    }
}

} // verus!
