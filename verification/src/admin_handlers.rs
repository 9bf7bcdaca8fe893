//! The Projects Admin contract.
use crate::access::{AuthorizationFailure, Authorized};
use crate::clock::Timestamp;
use crate::failure;
use crate::failure::{answer_admin, AdminError, PluginError, StorageError};
use crate::model::{
    ArchiveProjectStatusRequest, ArchiveWorkflowStateRequest, Completion, CycleValue,
    DeleteProjectStatusRequest, DeleteWorkflowStateRequest, DeletedProjectStatus,
    DeletedWorkflowState, GetProjectStatusRequest, GetWorkflowStateRequest, LabelValue,
    ListCyclesRequest, ListLabelsRequest, ListMilestonesRequest, ListProjectStatusesRequest,
    ListTeamsRequest, ListWorkflowStatesRequest, MilestoneValue, ProjectStatusValue,
    PutCycleRequest, PutLabelRequest, PutMilestoneRequest, PutProjectStatusRequest, PutTeamRequest,
    PutWorkflowStateRequest, ReorderProjectStatusesRequest, ReorderWorkflowStatesRequest,
    SetTeamMemberRequest, TeamMemberValue, TeamValue, WorkflowStateValue,
};
use crate::planning;
use crate::project_status;
use crate::project_status::StatusIds;
use crate::service;
use crate::service::{block_admin, invocation, Gate, ProjectsService};
use crate::store::{Invocation, Store};
use crate::table::Page;
use crate::teams;
use crate::validate;
use crate::validate::{
    valid_cycle_list, valid_cycle_put, valid_label_list, valid_label_put, valid_milestone_list,
    valid_milestone_put, valid_project_status_archive, valid_project_status_delete,
    valid_project_status_get, valid_project_status_list, valid_project_status_put,
    valid_project_status_reorder, valid_team, valid_team_list, valid_team_member,
    valid_workflow_archive, valid_workflow_delete, valid_workflow_get, valid_workflow_list,
    valid_workflow_put, valid_workflow_reorder,
};
use crate::workflow;
use crate::workflow::WorkflowIds;
use vstd::prelude::*;

verus! {

/// Whether `answer` is what the store makes of an admitted, valid request to put a team.
pub open spec fn put_team_handled(
    before: Store,
    after: Store,
    authorized: Authorized,
    request_json: Seq<char>,
    now: Timestamp,
    r: PutTeamRequest,
    ids: StatusIds,
    states: WorkflowIds,
    answer: Result<Completion<TeamValue>, PluginError<AdminError>>,
) -> bool {
    exists|call: Invocation, stored: Result<Completion<TeamValue>, StorageError>|
        {
            &&& service::is_invocation(call, authorized, request_json, now)
            &&& #[trigger] teams::put_team_outcome(before, after, call, r, ids, states, stored)
            &&& answer == failure::admin_result(stored)
        }
}

/// Whether `answer` is what the store makes of an admitted, valid request to list teams.
pub open spec fn list_teams_handled(
    s: Store,
    r: ListTeamsRequest,
    answer: Result<Page<TeamValue>, PluginError<AdminError>>,
) -> bool {
    exists|stored: Result<Page<TeamValue>, StorageError>|
        {
            &&& #[trigger] teams::list_teams_outcome(s, r, stored)
            &&& answer == failure::admin_result(stored)
        }
}

/// Whether `answer` is what the store makes of an admitted, valid request to set a member of a team.
pub open spec fn set_team_member_handled(
    before: Store,
    after: Store,
    authorized: Authorized,
    request_json: Seq<char>,
    now: Timestamp,
    r: SetTeamMemberRequest,
    answer: Result<Completion<TeamMemberValue>, PluginError<AdminError>>,
) -> bool {
    exists|call: Invocation, stored: Result<Completion<TeamMemberValue>, StorageError>|
        {
            &&& service::is_invocation(call, authorized, request_json, now)
            &&& #[trigger] teams::set_team_member_outcome(before, after, call, r, stored)
            &&& answer == failure::admin_result(stored)
        }
}

/// Whether `answer` is what the store makes of an admitted, valid request to put a workflow state.
pub open spec fn put_workflow_state_handled(
    before: Store,
    after: Store,
    authorized: Authorized,
    request_json: Seq<char>,
    now: Timestamp,
    r: PutWorkflowStateRequest,
    answer: Result<Completion<WorkflowStateValue>, PluginError<AdminError>>,
) -> bool {
    exists|call: Invocation, stored: Result<Completion<WorkflowStateValue>, StorageError>|
        {
            &&& service::is_invocation(call, authorized, request_json, now)
            &&& #[trigger] workflow::put_workflow_state_outcome(before, after, call, r, stored)
            &&& answer == failure::admin_result(stored)
        }
}

/// Whether `answer` is what the store makes of an admitted, valid request to get a workflow state.
pub open spec fn get_workflow_state_handled(
    s: Store,
    r: GetWorkflowStateRequest,
    answer: Result<WorkflowStateValue, PluginError<AdminError>>,
) -> bool {
    exists|stored: Result<WorkflowStateValue, StorageError>|
        {
            &&& #[trigger] workflow::get_workflow_state_outcome(s, r, stored)
            &&& answer == failure::admin_result(stored)
        }
}

/// Whether `answer` is what the store makes of an admitted, valid request to reorder workflow states.
pub open spec fn reorder_workflow_states_handled(
    before: Store,
    after: Store,
    authorized: Authorized,
    request_json: Seq<char>,
    now: Timestamp,
    r: ReorderWorkflowStatesRequest,
    answer: Result<Completion<Vec<WorkflowStateValue>>, PluginError<AdminError>>,
) -> bool {
    exists|call: Invocation, stored: Result<Completion<Vec<WorkflowStateValue>>, StorageError>|
        {
            &&& service::is_invocation(call, authorized, request_json, now)
            &&& #[trigger] workflow::reorder_workflow_states_outcome(before, after, call, r, stored)
            &&& answer == failure::admin_result(stored)
        }
}

/// Whether `answer` is what the store makes of an admitted, valid request to archive a workflow state.
pub open spec fn archive_workflow_state_handled(
    before: Store,
    after: Store,
    authorized: Authorized,
    request_json: Seq<char>,
    now: Timestamp,
    r: ArchiveWorkflowStateRequest,
    answer: Result<Completion<WorkflowStateValue>, PluginError<AdminError>>,
) -> bool {
    exists|call: Invocation, stored: Result<Completion<WorkflowStateValue>, StorageError>|
        {
            &&& service::is_invocation(call, authorized, request_json, now)
            &&& #[trigger] workflow::archive_workflow_state_outcome(before, after, call, r, stored)
            &&& answer == failure::admin_result(stored)
        }
}

/// Whether `answer` is what the store makes of an admitted, valid request to delete a workflow state.
pub open spec fn delete_workflow_state_handled(
    before: Store,
    after: Store,
    authorized: Authorized,
    request_json: Seq<char>,
    now: Timestamp,
    r: DeleteWorkflowStateRequest,
    answer: Result<Completion<DeletedWorkflowState>, PluginError<AdminError>>,
) -> bool {
    exists|call: Invocation, stored: Result<Completion<DeletedWorkflowState>, StorageError>|
        {
            &&& service::is_invocation(call, authorized, request_json, now)
            &&& #[trigger] workflow::delete_workflow_state_outcome(before, after, call, r, stored)
            &&& answer == failure::admin_result(stored)
        }
}

/// Whether `answer` is what the store makes of an admitted, valid request to list workflow states.
pub open spec fn list_workflow_states_handled(
    s: Store,
    r: ListWorkflowStatesRequest,
    answer: Result<Page<WorkflowStateValue>, PluginError<AdminError>>,
) -> bool {
    exists|stored: Result<Page<WorkflowStateValue>, StorageError>|
        {
            &&& #[trigger] workflow::list_workflow_states_outcome(s, r, stored)
            &&& answer == failure::admin_result(stored)
        }
}

/// Whether `answer` is what the store makes of an admitted, valid request to put a project status.
pub open spec fn put_project_status_handled(
    before: Store,
    after: Store,
    authorized: Authorized,
    request_json: Seq<char>,
    now: Timestamp,
    r: PutProjectStatusRequest,
    ids: StatusIds,
    answer: Result<Completion<ProjectStatusValue>, PluginError<AdminError>>,
) -> bool {
    exists|call: Invocation, stored: Result<Completion<ProjectStatusValue>, StorageError>|
        {
            &&& service::is_invocation(call, authorized, request_json, now)
            &&& #[trigger] project_status::put_project_status_outcome(before, after, call, r, ids, stored)
            &&& answer == failure::admin_result(stored)
        }
}

/// Whether `answer` is what the store makes of an admitted, valid request to get a project status.
pub open spec fn get_project_status_handled(
    before: Store,
    after: Store,
    r: GetProjectStatusRequest,
    ids: StatusIds,
    answer: Result<ProjectStatusValue, PluginError<AdminError>>,
) -> bool {
    exists|stored: Result<ProjectStatusValue, StorageError>|
        {
            &&& #[trigger] project_status::get_project_status_outcome(before, after, r, ids, stored)
            &&& answer == failure::admin_result(stored)
        }
}

/// Whether `answer` is what the store makes of an admitted, valid request to reorder project statuses.
pub open spec fn reorder_project_statuses_handled(
    before: Store,
    after: Store,
    authorized: Authorized,
    request_json: Seq<char>,
    now: Timestamp,
    r: ReorderProjectStatusesRequest,
    ids: StatusIds,
    answer: Result<Completion<Vec<ProjectStatusValue>>, PluginError<AdminError>>,
) -> bool {
    exists|call: Invocation, stored: Result<Completion<Vec<ProjectStatusValue>>, StorageError>|
        {
            &&& service::is_invocation(call, authorized, request_json, now)
            &&& #[trigger] project_status::reorder_project_statuses_outcome(before, after, call, r, ids, stored)
            &&& answer == failure::admin_result(stored)
        }
}

/// Whether `answer` is what the store makes of an admitted, valid request to archive a project status.
pub open spec fn archive_project_status_handled(
    before: Store,
    after: Store,
    authorized: Authorized,
    request_json: Seq<char>,
    now: Timestamp,
    r: ArchiveProjectStatusRequest,
    ids: StatusIds,
    answer: Result<Completion<ProjectStatusValue>, PluginError<AdminError>>,
) -> bool {
    exists|call: Invocation, stored: Result<Completion<ProjectStatusValue>, StorageError>|
        {
            &&& service::is_invocation(call, authorized, request_json, now)
            &&& #[trigger] project_status::archive_project_status_outcome(before, after, call, r, ids, stored)
            &&& answer == failure::admin_result(stored)
        }
}

/// Whether `answer` is what the store makes of an admitted, valid request to delete a project status.
pub open spec fn delete_project_status_handled(
    before: Store,
    after: Store,
    authorized: Authorized,
    request_json: Seq<char>,
    now: Timestamp,
    r: DeleteProjectStatusRequest,
    ids: StatusIds,
    answer: Result<Completion<DeletedProjectStatus>, PluginError<AdminError>>,
) -> bool {
    exists|call: Invocation, stored: Result<Completion<DeletedProjectStatus>, StorageError>|
        {
            &&& service::is_invocation(call, authorized, request_json, now)
            &&& #[trigger] project_status::delete_project_status_outcome(before, after, call, r, ids, stored)
            &&& answer == failure::admin_result(stored)
        }
}

/// Whether `answer` is what the store makes of an admitted, valid request to list project statuses.
pub open spec fn list_project_statuses_handled(
    before: Store,
    after: Store,
    r: ListProjectStatusesRequest,
    ids: StatusIds,
    answer: Result<Page<ProjectStatusValue>, PluginError<AdminError>>,
) -> bool {
    exists|stored: Result<Page<ProjectStatusValue>, StorageError>|
        {
            &&& #[trigger] project_status::list_project_statuses_outcome(before, after, r, ids, stored)
            &&& answer == failure::admin_result(stored)
        }
}

/// Whether `answer` is what the store makes of an admitted, valid request to put a label.
pub open spec fn put_label_handled(
    before: Store,
    after: Store,
    authorized: Authorized,
    request_json: Seq<char>,
    now: Timestamp,
    r: PutLabelRequest,
    answer: Result<Completion<LabelValue>, PluginError<AdminError>>,
) -> bool {
    exists|call: Invocation, stored: Result<Completion<LabelValue>, StorageError>|
        {
            &&& service::is_invocation(call, authorized, request_json, now)
            &&& #[trigger] planning::put_label_outcome(before, after, call, r, stored)
            &&& answer == failure::admin_result(stored)
        }
}

/// Whether `answer` is what the store makes of an admitted, valid request to list labels.
pub open spec fn list_labels_handled(
    s: Store,
    r: ListLabelsRequest,
    answer: Result<Page<LabelValue>, PluginError<AdminError>>,
) -> bool {
    exists|stored: Result<Page<LabelValue>, StorageError>|
        {
            &&& #[trigger] planning::list_labels_outcome(s, r, stored)
            &&& answer == failure::admin_result(stored)
        }
}

/// Whether `answer` is what the store makes of an admitted, valid request to put a cycle.
pub open spec fn put_cycle_handled(
    before: Store,
    after: Store,
    authorized: Authorized,
    request_json: Seq<char>,
    now: Timestamp,
    r: PutCycleRequest,
    answer: Result<Completion<CycleValue>, PluginError<AdminError>>,
) -> bool {
    exists|call: Invocation, stored: Result<Completion<CycleValue>, StorageError>|
        {
            &&& service::is_invocation(call, authorized, request_json, now)
            &&& #[trigger] planning::put_cycle_outcome(before, after, call, r, stored)
            &&& answer == failure::admin_result(stored)
        }
}

/// Whether `answer` is what the store makes of an admitted, valid request to list cycles.
pub open spec fn list_cycles_handled(
    s: Store,
    r: ListCyclesRequest,
    answer: Result<Page<CycleValue>, PluginError<AdminError>>,
) -> bool {
    exists|stored: Result<Page<CycleValue>, StorageError>|
        {
            &&& #[trigger] planning::list_cycles_outcome(s, r, stored)
            &&& answer == failure::admin_result(stored)
        }
}

/// Whether `answer` is what the store makes of an admitted, valid request to put a milestone.
pub open spec fn put_milestone_handled(
    before: Store,
    after: Store,
    authorized: Authorized,
    request_json: Seq<char>,
    now: Timestamp,
    r: PutMilestoneRequest,
    answer: Result<Completion<MilestoneValue>, PluginError<AdminError>>,
) -> bool {
    exists|call: Invocation, stored: Result<Completion<MilestoneValue>, StorageError>|
        {
            &&& service::is_invocation(call, authorized, request_json, now)
            &&& #[trigger] planning::put_milestone_outcome(before, after, call, r, stored)
            &&& answer == failure::admin_result(stored)
        }
}

/// Whether `answer` is what the store makes of an admitted, valid request to list milestones.
pub open spec fn list_milestones_handled(
    s: Store,
    r: ListMilestonesRequest,
    answer: Result<Page<MilestoneValue>, PluginError<AdminError>>,
) -> bool {
    exists|stored: Result<Page<MilestoneValue>, StorageError>|
        {
            &&& #[trigger] planning::list_milestones_outcome(s, r, stored)
            &&& answer == failure::admin_result(stored)
        }
}

impl ProjectsService {
    /// Handles a request to put a team.
    pub fn put_team(
        &mut self,
        access: Result<Authorized, AuthorizationFailure>,
        request: &PutTeamRequest,
        request_json: &str,
        now: &Timestamp,
        ids: &StatusIds,
        states: &WorkflowIds,
    ) -> (answer: Result<Completion<TeamValue>, PluginError<AdminError>>)
        ensures
            ({
                let gate = service::gate_of(access, validate::is_team(*request), *old(self));
                match gate {
                    Gate::Open(authorized) => {
                        &&& final(self).store is Some
                        &&& put_team_handled(
                            old(self).store->0,
                            final(self).store->0,
                            authorized,
                            request_json@,
                            *now,
                            *request,
                            *ids,
                            *states,
                            answer,
                        )
                    },
                    _ => service::admin_blocked(gate, answer) && *final(self) == *old(self),
                }
            }),
    {
        let authorized = match self.enter(access, valid_team(request)) {
            Gate::Open(authorized) => authorized,
            gate => {
                return Err(block_admin(gate));
            },
        };
        let call = invocation(&authorized, request_json, now);
        match &mut self.store {
            Some(store) => {
                let stored = store.put_team(&call, request, ids, states);
                assert(teams::put_team_outcome(old(self).store->0, *store, call, *request, *ids, *states, stored));
                answer_admin(stored)
            },
            None => Err(block_admin(Gate::Unprepared)),
        }
    }

    /// Handles a request to list teams.
    pub fn list_teams(
        &self,
        access: Result<Authorized, AuthorizationFailure>,
        request: &ListTeamsRequest,
    ) -> (answer: Result<Page<TeamValue>, PluginError<AdminError>>)
        ensures
            ({
                let gate = service::gate_of(access, validate::is_team_list(*request), *self);
                match gate {
                    Gate::Open(_) => list_teams_handled(
                        self.store->0,
                        *request,
                        answer,
                    ),
                    _ => service::admin_blocked(gate, answer),
                }
            }),
    {
        let _authorized = match self.enter(access, valid_team_list(request)) {
            Gate::Open(authorized) => authorized,
            gate => {
                return Err(block_admin(gate));
            },
        };
        match &self.store {
            Some(store) => {
                let stored = store.list_teams(request);
                assert(teams::list_teams_outcome(*store, *request, stored));
                answer_admin(stored)
            },
            None => Err(block_admin(Gate::Unprepared)),
        }
    }

    /// Handles a request to set a member of a team.
    pub fn set_team_member(
        &mut self,
        access: Result<Authorized, AuthorizationFailure>,
        request: &SetTeamMemberRequest,
        request_json: &str,
        now: &Timestamp,
    ) -> (answer: Result<Completion<TeamMemberValue>, PluginError<AdminError>>)
        ensures
            ({
                let gate = service::gate_of(access, validate::is_team_member(*request), *old(self));
                match gate {
                    Gate::Open(authorized) => {
                        &&& final(self).store is Some
                        &&& set_team_member_handled(
                            old(self).store->0,
                            final(self).store->0,
                            authorized,
                            request_json@,
                            *now,
                            *request,
                            answer,
                        )
                    },
                    _ => service::admin_blocked(gate, answer) && *final(self) == *old(self),
                }
            }),
    {
        let authorized = match self.enter(access, valid_team_member(request)) {
            Gate::Open(authorized) => authorized,
            gate => {
                return Err(block_admin(gate));
            },
        };
        let call = invocation(&authorized, request_json, now);
        match &mut self.store {
            Some(store) => {
                let stored = store.set_team_member(&call, request);
                assert(teams::set_team_member_outcome(old(self).store->0, *store, call, *request, stored));
                answer_admin(stored)
            },
            None => Err(block_admin(Gate::Unprepared)),
        }
    }

    /// Handles a request to put a workflow state.
    pub fn put_workflow_state(
        &mut self,
        access: Result<Authorized, AuthorizationFailure>,
        request: &PutWorkflowStateRequest,
        request_json: &str,
        now: &Timestamp,
    ) -> (answer: Result<Completion<WorkflowStateValue>, PluginError<AdminError>>)
        ensures
            ({
                let gate = service::gate_of(access, validate::is_workflow_put(*request), *old(self));
                match gate {
                    Gate::Open(authorized) => {
                        &&& final(self).store is Some
                        &&& put_workflow_state_handled(
                            old(self).store->0,
                            final(self).store->0,
                            authorized,
                            request_json@,
                            *now,
                            *request,
                            answer,
                        )
                    },
                    _ => service::admin_blocked(gate, answer) && *final(self) == *old(self),
                }
            }),
    {
        let authorized = match self.enter(access, valid_workflow_put(request)) {
            Gate::Open(authorized) => authorized,
            gate => {
                return Err(block_admin(gate));
            },
        };
        let call = invocation(&authorized, request_json, now);
        match &mut self.store {
            Some(store) => {
                let stored = store.put_workflow_state(&call, request);
                assert(workflow::put_workflow_state_outcome(old(self).store->0, *store, call, *request, stored));
                answer_admin(stored)
            },
            None => Err(block_admin(Gate::Unprepared)),
        }
    }

    /// Handles a request to get a workflow state.
    pub fn get_workflow_state(
        &self,
        access: Result<Authorized, AuthorizationFailure>,
        request: &GetWorkflowStateRequest,
    ) -> (answer: Result<WorkflowStateValue, PluginError<AdminError>>)
        ensures
            ({
                let gate = service::gate_of(access, validate::is_workflow_get(*request), *self);
                match gate {
                    Gate::Open(_) => get_workflow_state_handled(
                        self.store->0,
                        *request,
                        answer,
                    ),
                    _ => service::admin_blocked(gate, answer),
                }
            }),
    {
        let _authorized = match self.enter(access, valid_workflow_get(request)) {
            Gate::Open(authorized) => authorized,
            gate => {
                return Err(block_admin(gate));
            },
        };
        match &self.store {
            Some(store) => {
                let stored = store.get_workflow_state(request);
                assert(workflow::get_workflow_state_outcome(*store, *request, stored));
                answer_admin(stored)
            },
            None => Err(block_admin(Gate::Unprepared)),
        }
    }

    /// Handles a request to reorder workflow states.
    pub fn reorder_workflow_states(
        &mut self,
        access: Result<Authorized, AuthorizationFailure>,
        request: &ReorderWorkflowStatesRequest,
        request_json: &str,
        now: &Timestamp,
    ) -> (answer: Result<Completion<Vec<WorkflowStateValue>>, PluginError<AdminError>>)
        ensures
            ({
                let gate = service::gate_of(
                    access,
                    validate::is_workflow_reorder(*request),
                    *old(self),
                );
                match gate {
                    Gate::Open(authorized) => {
                        &&& final(self).store is Some
                        &&& reorder_workflow_states_handled(
                            old(self).store->0,
                            final(self).store->0,
                            authorized,
                            request_json@,
                            *now,
                            *request,
                            answer,
                        )
                    },
                    _ => service::admin_blocked(gate, answer) && *final(self) == *old(self),
                }
            }),
    {
        let authorized = match self.enter(access, valid_workflow_reorder(request)) {
            Gate::Open(authorized) => authorized,
            gate => {
                return Err(block_admin(gate));
            },
        };
        let call = invocation(&authorized, request_json, now);
        match &mut self.store {
            Some(store) => {
                let stored = store.reorder_workflow_states(&call, request);
                assert(workflow::reorder_workflow_states_outcome(old(self).store->0, *store, call, *request, stored));
                answer_admin(stored)
            },
            None => Err(block_admin(Gate::Unprepared)),
        }
    }

    /// Handles a request to archive a workflow state.
    pub fn archive_workflow_state(
        &mut self,
        access: Result<Authorized, AuthorizationFailure>,
        request: &ArchiveWorkflowStateRequest,
        request_json: &str,
        now: &Timestamp,
    ) -> (answer: Result<Completion<WorkflowStateValue>, PluginError<AdminError>>)
        ensures
            ({
                let gate = service::gate_of(
                    access,
                    validate::is_workflow_archive(*request),
                    *old(self),
                );
                match gate {
                    Gate::Open(authorized) => {
                        &&& final(self).store is Some
                        &&& archive_workflow_state_handled(
                            old(self).store->0,
                            final(self).store->0,
                            authorized,
                            request_json@,
                            *now,
                            *request,
                            answer,
                        )
                    },
                    _ => service::admin_blocked(gate, answer) && *final(self) == *old(self),
                }
            }),
    {
        let authorized = match self.enter(access, valid_workflow_archive(request)) {
            Gate::Open(authorized) => authorized,
            gate => {
                return Err(block_admin(gate));
            },
        };
        let call = invocation(&authorized, request_json, now);
        match &mut self.store {
            Some(store) => {
                let stored = store.archive_workflow_state(&call, request);
                assert(workflow::archive_workflow_state_outcome(old(self).store->0, *store, call, *request, stored));
                answer_admin(stored)
            },
            None => Err(block_admin(Gate::Unprepared)),
        }
    }

    /// Handles a request to delete a workflow state.
    pub fn delete_workflow_state(
        &mut self,
        access: Result<Authorized, AuthorizationFailure>,
        request: &DeleteWorkflowStateRequest,
        request_json: &str,
        now: &Timestamp,
    ) -> (answer: Result<Completion<DeletedWorkflowState>, PluginError<AdminError>>)
        ensures
            ({
                let gate = service::gate_of(
                    access,
                    validate::is_workflow_delete(*request),
                    *old(self),
                );
                match gate {
                    Gate::Open(authorized) => {
                        &&& final(self).store is Some
                        &&& delete_workflow_state_handled(
                            old(self).store->0,
                            final(self).store->0,
                            authorized,
                            request_json@,
                            *now,
                            *request,
                            answer,
                        )
                    },
                    _ => service::admin_blocked(gate, answer) && *final(self) == *old(self),
                }
            }),
    {
        let authorized = match self.enter(access, valid_workflow_delete(request)) {
            Gate::Open(authorized) => authorized,
            gate => {
                return Err(block_admin(gate));
            },
        };
        let call = invocation(&authorized, request_json, now);
        match &mut self.store {
            Some(store) => {
                let stored = store.delete_workflow_state(&call, request);
                assert(workflow::delete_workflow_state_outcome(old(self).store->0, *store, call, *request, stored));
                answer_admin(stored)
            },
            None => Err(block_admin(Gate::Unprepared)),
        }
    }

    /// Handles a request to list workflow states.
    pub fn list_workflow_states(
        &self,
        access: Result<Authorized, AuthorizationFailure>,
        request: &ListWorkflowStatesRequest,
    ) -> (answer: Result<Page<WorkflowStateValue>, PluginError<AdminError>>)
        ensures
            ({
                let gate = service::gate_of(access, validate::is_workflow_list(*request), *self);
                match gate {
                    Gate::Open(_) => list_workflow_states_handled(
                        self.store->0,
                        *request,
                        answer,
                    ),
                    _ => service::admin_blocked(gate, answer),
                }
            }),
    {
        let _authorized = match self.enter(access, valid_workflow_list(request)) {
            Gate::Open(authorized) => authorized,
            gate => {
                return Err(block_admin(gate));
            },
        };
        match &self.store {
            Some(store) => {
                let stored = store.list_workflow_states(request);
                assert(workflow::list_workflow_states_outcome(*store, *request, stored));
                answer_admin(stored)
            },
            None => Err(block_admin(Gate::Unprepared)),
        }
    }

    /// Handles a request to put a project status.
    pub fn put_project_status(
        &mut self,
        access: Result<Authorized, AuthorizationFailure>,
        request: &PutProjectStatusRequest,
        request_json: &str,
        now: &Timestamp,
        ids: &StatusIds,
    ) -> (answer: Result<Completion<ProjectStatusValue>, PluginError<AdminError>>)
        ensures
            ({
                let gate = service::gate_of(
                    access,
                    validate::is_project_status_put(*request),
                    *old(self),
                );
                match gate {
                    Gate::Open(authorized) => {
                        &&& final(self).store is Some
                        &&& put_project_status_handled(
                            old(self).store->0,
                            final(self).store->0,
                            authorized,
                            request_json@,
                            *now,
                            *request,
                            *ids,
                            answer,
                        )
                    },
                    _ => service::admin_blocked(gate, answer) && *final(self) == *old(self),
                }
            }),
    {
        let authorized = match self.enter(access, valid_project_status_put(request)) {
            Gate::Open(authorized) => authorized,
            gate => {
                return Err(block_admin(gate));
            },
        };
        let call = invocation(&authorized, request_json, now);
        match &mut self.store {
            Some(store) => {
                let stored = store.put_project_status(&call, request, ids);
                assert(project_status::put_project_status_outcome(old(self).store->0, *store, call, *request, *ids, stored));
                answer_admin(stored)
            },
            None => Err(block_admin(Gate::Unprepared)),
        }
    }

    /// Handles a request to get a project status.
    pub fn get_project_status(
        &mut self,
        access: Result<Authorized, AuthorizationFailure>,
        request: &GetProjectStatusRequest,
        ids: &StatusIds,
    ) -> (answer: Result<ProjectStatusValue, PluginError<AdminError>>)
        ensures
            ({
                let gate = service::gate_of(
                    access,
                    validate::is_project_status_get(*request),
                    *old(self),
                );
                match gate {
                    Gate::Open(_) => {
                        &&& final(self).store is Some
                        &&& get_project_status_handled(
                            old(self).store->0,
                            final(self).store->0,
                            *request,
                            *ids,
                            answer,
                        )
                    },
                    _ => service::admin_blocked(gate, answer) && *final(self) == *old(self),
                }
            }),
    {
        let _authorized = match self.enter(access, valid_project_status_get(request)) {
            Gate::Open(authorized) => authorized,
            gate => {
                return Err(block_admin(gate));
            },
        };
        match &mut self.store {
            Some(store) => {
                let stored = store.get_project_status(request, ids);
                assert(project_status::get_project_status_outcome(old(self).store->0, *store, *request, *ids, stored));
                answer_admin(stored)
            },
            None => Err(block_admin(Gate::Unprepared)),
        }
    }

    /// Handles a request to reorder project statuses.
    pub fn reorder_project_statuses(
        &mut self,
        access: Result<Authorized, AuthorizationFailure>,
        request: &ReorderProjectStatusesRequest,
        request_json: &str,
        now: &Timestamp,
        ids: &StatusIds,
    ) -> (answer: Result<Completion<Vec<ProjectStatusValue>>, PluginError<AdminError>>)
        ensures
            ({
                let gate = service::gate_of(
                    access,
                    validate::is_project_status_reorder(*request),
                    *old(self),
                );
                match gate {
                    Gate::Open(authorized) => {
                        &&& final(self).store is Some
                        &&& reorder_project_statuses_handled(
                            old(self).store->0,
                            final(self).store->0,
                            authorized,
                            request_json@,
                            *now,
                            *request,
                            *ids,
                            answer,
                        )
                    },
                    _ => service::admin_blocked(gate, answer) && *final(self) == *old(self),
                }
            }),
    {
        let authorized = match self.enter(access, valid_project_status_reorder(request)) {
            Gate::Open(authorized) => authorized,
            gate => {
                return Err(block_admin(gate));
            },
        };
        let call = invocation(&authorized, request_json, now);
        match &mut self.store {
            Some(store) => {
                let stored = store.reorder_project_statuses(&call, request, ids);
                assert(project_status::reorder_project_statuses_outcome(old(self).store->0, *store, call, *request, *ids, stored));
                answer_admin(stored)
            },
            None => Err(block_admin(Gate::Unprepared)),
        }
    }

    /// Handles a request to archive a project status.
    pub fn archive_project_status(
        &mut self,
        access: Result<Authorized, AuthorizationFailure>,
        request: &ArchiveProjectStatusRequest,
        request_json: &str,
        now: &Timestamp,
        ids: &StatusIds,
    ) -> (answer: Result<Completion<ProjectStatusValue>, PluginError<AdminError>>)
        ensures
            ({
                let gate = service::gate_of(
                    access,
                    validate::is_project_status_archive(*request),
                    *old(self),
                );
                match gate {
                    Gate::Open(authorized) => {
                        &&& final(self).store is Some
                        &&& archive_project_status_handled(
                            old(self).store->0,
                            final(self).store->0,
                            authorized,
                            request_json@,
                            *now,
                            *request,
                            *ids,
                            answer,
                        )
                    },
                    _ => service::admin_blocked(gate, answer) && *final(self) == *old(self),
                }
            }),
    {
        let authorized = match self.enter(access, valid_project_status_archive(request)) {
            Gate::Open(authorized) => authorized,
            gate => {
                return Err(block_admin(gate));
            },
        };
        let call = invocation(&authorized, request_json, now);
        match &mut self.store {
            Some(store) => {
                let stored = store.archive_project_status(&call, request, ids);
                assert(project_status::archive_project_status_outcome(old(self).store->0, *store, call, *request, *ids, stored));
                answer_admin(stored)
            },
            None => Err(block_admin(Gate::Unprepared)),
        }
    }

    /// Handles a request to delete a project status.
    pub fn delete_project_status(
        &mut self,
        access: Result<Authorized, AuthorizationFailure>,
        request: &DeleteProjectStatusRequest,
        request_json: &str,
        now: &Timestamp,
        ids: &StatusIds,
    ) -> (answer: Result<Completion<DeletedProjectStatus>, PluginError<AdminError>>)
        ensures
            ({
                let gate = service::gate_of(
                    access,
                    validate::is_project_status_delete(*request),
                    *old(self),
                );
                match gate {
                    Gate::Open(authorized) => {
                        &&& final(self).store is Some
                        &&& delete_project_status_handled(
                            old(self).store->0,
                            final(self).store->0,
                            authorized,
                            request_json@,
                            *now,
                            *request,
                            *ids,
                            answer,
                        )
                    },
                    _ => service::admin_blocked(gate, answer) && *final(self) == *old(self),
                }
            }),
    {
        let authorized = match self.enter(access, valid_project_status_delete(request)) {
            Gate::Open(authorized) => authorized,
            gate => {
                return Err(block_admin(gate));
            },
        };
        let call = invocation(&authorized, request_json, now);
        match &mut self.store {
            Some(store) => {
                let stored = store.delete_project_status(&call, request, ids);
                assert(project_status::delete_project_status_outcome(old(self).store->0, *store, call, *request, *ids, stored));
                answer_admin(stored)
            },
            None => Err(block_admin(Gate::Unprepared)),
        }
    }

    /// Handles a request to list project statuses.
    pub fn list_project_statuses(
        &mut self,
        access: Result<Authorized, AuthorizationFailure>,
        request: &ListProjectStatusesRequest,
        ids: &StatusIds,
    ) -> (answer: Result<Page<ProjectStatusValue>, PluginError<AdminError>>)
        ensures
            ({
                let gate = service::gate_of(
                    access,
                    validate::is_project_status_list(*request),
                    *old(self),
                );
                match gate {
                    Gate::Open(_) => {
                        &&& final(self).store is Some
                        &&& list_project_statuses_handled(
                            old(self).store->0,
                            final(self).store->0,
                            *request,
                            *ids,
                            answer,
                        )
                    },
                    _ => service::admin_blocked(gate, answer) && *final(self) == *old(self),
                }
            }),
    {
        let _authorized = match self.enter(access, valid_project_status_list(request)) {
            Gate::Open(authorized) => authorized,
            gate => {
                return Err(block_admin(gate));
            },
        };
        match &mut self.store {
            Some(store) => {
                let stored = store.list_project_statuses(request, ids);
                assert(project_status::list_project_statuses_outcome(old(self).store->0, *store, *request, *ids, stored));
                answer_admin(stored)
            },
            None => Err(block_admin(Gate::Unprepared)),
        }
    }

    /// Handles a request to put a label.
    pub fn put_label(
        &mut self,
        access: Result<Authorized, AuthorizationFailure>,
        request: &PutLabelRequest,
        request_json: &str,
        now: &Timestamp,
    ) -> (answer: Result<Completion<LabelValue>, PluginError<AdminError>>)
        ensures
            ({
                let gate = service::gate_of(access, validate::is_label_put(*request), *old(self));
                match gate {
                    Gate::Open(authorized) => {
                        &&& final(self).store is Some
                        &&& put_label_handled(
                            old(self).store->0,
                            final(self).store->0,
                            authorized,
                            request_json@,
                            *now,
                            *request,
                            answer,
                        )
                    },
                    _ => service::admin_blocked(gate, answer) && *final(self) == *old(self),
                }
            }),
    {
        let authorized = match self.enter(access, valid_label_put(request)) {
            Gate::Open(authorized) => authorized,
            gate => {
                return Err(block_admin(gate));
            },
        };
        let call = invocation(&authorized, request_json, now);
        match &mut self.store {
            Some(store) => {
                let stored = store.put_label(&call, request);
                assert(planning::put_label_outcome(old(self).store->0, *store, call, *request, stored));
                answer_admin(stored)
            },
            None => Err(block_admin(Gate::Unprepared)),
        }
    }

    /// Handles a request to list labels.
    pub fn list_labels(
        &self,
        access: Result<Authorized, AuthorizationFailure>,
        request: &ListLabelsRequest,
    ) -> (answer: Result<Page<LabelValue>, PluginError<AdminError>>)
        ensures
            ({
                let gate = service::gate_of(access, validate::is_label_list(*request), *self);
                match gate {
                    Gate::Open(_) => list_labels_handled(
                        self.store->0,
                        *request,
                        answer,
                    ),
                    _ => service::admin_blocked(gate, answer),
                }
            }),
    {
        let _authorized = match self.enter(access, valid_label_list(request)) {
            Gate::Open(authorized) => authorized,
            gate => {
                return Err(block_admin(gate));
            },
        };
        match &self.store {
            Some(store) => {
                let stored = store.list_labels(request);
                assert(planning::list_labels_outcome(*store, *request, stored));
                answer_admin(stored)
            },
            None => Err(block_admin(Gate::Unprepared)),
        }
    }

    /// Handles a request to put a cycle.
    pub fn put_cycle(
        &mut self,
        access: Result<Authorized, AuthorizationFailure>,
        request: &PutCycleRequest,
        request_json: &str,
        now: &Timestamp,
    ) -> (answer: Result<Completion<CycleValue>, PluginError<AdminError>>)
        ensures
            ({
                let gate = service::gate_of(access, validate::is_cycle_put(*request), *old(self));
                match gate {
                    Gate::Open(authorized) => {
                        &&& final(self).store is Some
                        &&& put_cycle_handled(
                            old(self).store->0,
                            final(self).store->0,
                            authorized,
                            request_json@,
                            *now,
                            *request,
                            answer,
                        )
                    },
                    _ => service::admin_blocked(gate, answer) && *final(self) == *old(self),
                }
            }),
    {
        let authorized = match self.enter(access, valid_cycle_put(request)) {
            Gate::Open(authorized) => authorized,
            gate => {
                return Err(block_admin(gate));
            },
        };
        let call = invocation(&authorized, request_json, now);
        match &mut self.store {
            Some(store) => {
                let stored = store.put_cycle(&call, request);
                assert(planning::put_cycle_outcome(old(self).store->0, *store, call, *request, stored));
                answer_admin(stored)
            },
            None => Err(block_admin(Gate::Unprepared)),
        }
    }

    /// Handles a request to list cycles.
    pub fn list_cycles(
        &self,
        access: Result<Authorized, AuthorizationFailure>,
        request: &ListCyclesRequest,
    ) -> (answer: Result<Page<CycleValue>, PluginError<AdminError>>)
        ensures
            ({
                let gate = service::gate_of(access, validate::is_cycle_list(*request), *self);
                match gate {
                    Gate::Open(_) => list_cycles_handled(
                        self.store->0,
                        *request,
                        answer,
                    ),
                    _ => service::admin_blocked(gate, answer),
                }
            }),
    {
        let _authorized = match self.enter(access, valid_cycle_list(request)) {
            Gate::Open(authorized) => authorized,
            gate => {
                return Err(block_admin(gate));
            },
        };
        match &self.store {
            Some(store) => {
                let stored = store.list_cycles(request);
                assert(planning::list_cycles_outcome(*store, *request, stored));
                answer_admin(stored)
            },
            None => Err(block_admin(Gate::Unprepared)),
        }
    }

    /// Handles a request to put a milestone.
    pub fn put_milestone(
        &mut self,
        access: Result<Authorized, AuthorizationFailure>,
        request: &PutMilestoneRequest,
        request_json: &str,
        now: &Timestamp,
    ) -> (answer: Result<Completion<MilestoneValue>, PluginError<AdminError>>)
        ensures
            ({
                let gate = service::gate_of(
                    access,
                    validate::is_milestone_put(*request),
                    *old(self),
                );
                match gate {
                    Gate::Open(authorized) => {
                        &&& final(self).store is Some
                        &&& put_milestone_handled(
                            old(self).store->0,
                            final(self).store->0,
                            authorized,
                            request_json@,
                            *now,
                            *request,
                            answer,
                        )
                    },
                    _ => service::admin_blocked(gate, answer) && *final(self) == *old(self),
                }
            }),
    {
        let authorized = match self.enter(access, valid_milestone_put(request)) {
            Gate::Open(authorized) => authorized,
            gate => {
                return Err(block_admin(gate));
            },
        };
        let call = invocation(&authorized, request_json, now);
        match &mut self.store {
            Some(store) => {
                let stored = store.put_milestone(&call, request);
                assert(planning::put_milestone_outcome(old(self).store->0, *store, call, *request, stored));
                answer_admin(stored)
            },
            None => Err(block_admin(Gate::Unprepared)),
        }
    }

    /// Handles a request to list milestones.
    pub fn list_milestones(
        &self,
        access: Result<Authorized, AuthorizationFailure>,
        request: &ListMilestonesRequest,
    ) -> (answer: Result<Page<MilestoneValue>, PluginError<AdminError>>)
        ensures
            ({
                let gate = service::gate_of(access, validate::is_milestone_list(*request), *self);
                match gate {
                    Gate::Open(_) => list_milestones_handled(
                        self.store->0,
                        *request,
                        answer,
                    ),
                    _ => service::admin_blocked(gate, answer),
                }
            }),
    {
        let _authorized = match self.enter(access, valid_milestone_list(request)) {
            Gate::Open(authorized) => authorized,
            gate => {
                return Err(block_admin(gate));
            },
        };
        match &self.store {
            Some(store) => {
                let stored = store.list_milestones(request);
                assert(planning::list_milestones_outcome(*store, *request, stored));
                answer_admin(stored)
            },
            None => Err(block_admin(Gate::Unprepared)),
        }
    }
}

} // verus!
