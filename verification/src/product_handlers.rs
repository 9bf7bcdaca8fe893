//! The Projects contract.
use crate::access::{AuthorizationFailure, Authorized};
use crate::activity;
use crate::clock::Timestamp;
use crate::failure;
use crate::failure::{answer_project, ProjectsError, PluginError, StorageError};
use crate::issues;
use crate::model::{
    ActivityValue, ArchiveIssueRequest, ArchiveProjectRequest, Completion, CreateIssueRequest,
    CreateProjectRequest, ExternalLinkValue, GetIssueRequest, GetProjectRequest, IssueValue,
    ListActivityRequest, ListIssueWorkflowStatesRequest, ListIssuesRequest, ListProjectsRequest,
    MoveIssueRequest, ProjectValue, PutExternalLinkRequest, UpdateIssueRequest,
    UpdateProjectRequest, WorkflowStateValue,
};
use crate::project_status::StatusIds;
use crate::projects;
use crate::service;
use crate::service::{block_project, invocation, Gate, ProjectsService};
use crate::store::{Invocation, Store};
use crate::table::Page;
use crate::validate;
use crate::validate::{
    valid_activity_list, valid_external_link, valid_issue_archive, valid_issue_create,
    valid_issue_get, valid_issue_list, valid_issue_move, valid_issue_update,
    valid_issue_workflow_list, valid_project_archive, valid_project_create, valid_project_get,
    valid_project_list, valid_project_update,
};
use crate::workflow;
use vstd::prelude::*;

verus! {

/// Whether `answer` is what the store makes of an admitted, valid request to create a project.
pub open spec fn create_project_handled(
    before: Store,
    after: Store,
    authorized: Authorized,
    request_json: Seq<char>,
    now: Timestamp,
    r: CreateProjectRequest,
    ids: StatusIds,
    answer: Result<Completion<ProjectValue>, PluginError<ProjectsError>>,
) -> bool {
    exists|call: Invocation, stored: Result<Completion<ProjectValue>, StorageError>|
        {
            &&& service::is_invocation(call, authorized, request_json, now)
            &&& #[trigger] projects::create_project_outcome(before, after, call, r, ids, stored)
            &&& answer == failure::project_result(stored)
        }
}

/// Whether `answer` is what the store makes of an admitted, valid request to get a project.
pub open spec fn get_project_handled(
    s: Store,
    authorized: Authorized,
    r: GetProjectRequest,
    answer: Result<ProjectValue, PluginError<ProjectsError>>,
) -> bool {
    exists|stored: Result<ProjectValue, StorageError>|
        {
            &&& #[trigger] projects::get_project_outcome(s, authorized.actor@, r, stored)
            &&& answer == failure::project_result(stored)
        }
}

/// Whether `answer` is what the store makes of an admitted, valid request to list projects.
pub open spec fn list_projects_handled(
    s: Store,
    authorized: Authorized,
    r: ListProjectsRequest,
    answer: Result<Page<ProjectValue>, PluginError<ProjectsError>>,
) -> bool {
    exists|stored: Result<Page<ProjectValue>, StorageError>|
        {
            &&& #[trigger] projects::list_projects_outcome(s, authorized.actor@, r, stored)
            &&& answer == failure::project_result(stored)
        }
}

/// Whether `answer` is what the store makes of an admitted, valid request to update a project.
pub open spec fn update_project_handled(
    before: Store,
    after: Store,
    authorized: Authorized,
    request_json: Seq<char>,
    now: Timestamp,
    r: UpdateProjectRequest,
    ids: StatusIds,
    answer: Result<Completion<ProjectValue>, PluginError<ProjectsError>>,
) -> bool {
    exists|call: Invocation, stored: Result<Completion<ProjectValue>, StorageError>|
        {
            &&& service::is_invocation(call, authorized, request_json, now)
            &&& #[trigger] projects::update_project_outcome(before, after, call, r, ids, stored)
            &&& answer == failure::project_result(stored)
        }
}

/// Whether `answer` is what the store makes of an admitted, valid request to archive a project.
pub open spec fn archive_project_handled(
    before: Store,
    after: Store,
    authorized: Authorized,
    request_json: Seq<char>,
    now: Timestamp,
    r: ArchiveProjectRequest,
    answer: Result<Completion<ProjectValue>, PluginError<ProjectsError>>,
) -> bool {
    exists|call: Invocation, stored: Result<Completion<ProjectValue>, StorageError>|
        {
            &&& service::is_invocation(call, authorized, request_json, now)
            &&& #[trigger] projects::archive_project_outcome(before, after, call, r, stored)
            &&& answer == failure::project_result(stored)
        }
}

/// Whether `answer` is what the store makes of an admitted, valid request to create an issue.
pub open spec fn create_issue_handled(
    before: Store,
    after: Store,
    authorized: Authorized,
    request_json: Seq<char>,
    now: Timestamp,
    r: CreateIssueRequest,
    answer: Result<Completion<IssueValue>, PluginError<ProjectsError>>,
) -> bool {
    exists|call: Invocation, stored: Result<Completion<IssueValue>, StorageError>|
        {
            &&& service::is_invocation(call, authorized, request_json, now)
            &&& #[trigger] issues::create_issue_outcome(before, after, call, r, stored)
            &&& answer == failure::project_result(stored)
        }
}

/// Whether `answer` is what the store makes of an admitted, valid request to get an issue.
pub open spec fn get_issue_handled(
    s: Store,
    authorized: Authorized,
    r: GetIssueRequest,
    answer: Result<IssueValue, PluginError<ProjectsError>>,
) -> bool {
    exists|stored: Result<IssueValue, StorageError>|
        {
            &&& #[trigger] issues::get_issue_outcome(s, authorized.actor@, r, stored)
            &&& answer == failure::project_result(stored)
        }
}

/// Whether `answer` is what the store makes of an admitted, valid request to list issues.
pub open spec fn list_issues_handled(
    s: Store,
    authorized: Authorized,
    r: ListIssuesRequest,
    answer: Result<Page<IssueValue>, PluginError<ProjectsError>>,
) -> bool {
    exists|stored: Result<Page<IssueValue>, StorageError>|
        {
            &&& #[trigger] issues::list_issues_outcome(s, authorized.actor@, r, stored)
            &&& answer == failure::project_result(stored)
        }
}

/// Whether `answer` is what the store makes of an admitted, valid request to update an issue.
pub open spec fn update_issue_handled(
    before: Store,
    after: Store,
    authorized: Authorized,
    request_json: Seq<char>,
    now: Timestamp,
    r: UpdateIssueRequest,
    answer: Result<Completion<IssueValue>, PluginError<ProjectsError>>,
) -> bool {
    exists|call: Invocation, stored: Result<Completion<IssueValue>, StorageError>|
        {
            &&& service::is_invocation(call, authorized, request_json, now)
            &&& #[trigger] issues::update_issue_outcome(before, after, call, r, stored)
            &&& answer == failure::project_result(stored)
        }
}

/// Whether `answer` is what the store makes of an admitted, valid request to move an issue.
pub open spec fn move_issue_handled(
    before: Store,
    after: Store,
    authorized: Authorized,
    request_json: Seq<char>,
    now: Timestamp,
    r: MoveIssueRequest,
    answer: Result<Completion<IssueValue>, PluginError<ProjectsError>>,
) -> bool {
    exists|call: Invocation, stored: Result<Completion<IssueValue>, StorageError>|
        {
            &&& service::is_invocation(call, authorized, request_json, now)
            &&& #[trigger] issues::move_issue_outcome(before, after, call, r, stored)
            &&& answer == failure::project_result(stored)
        }
}

/// Whether `answer` is what the store makes of an admitted, valid request to archive an issue.
pub open spec fn archive_issue_handled(
    before: Store,
    after: Store,
    authorized: Authorized,
    request_json: Seq<char>,
    now: Timestamp,
    r: ArchiveIssueRequest,
    answer: Result<Completion<IssueValue>, PluginError<ProjectsError>>,
) -> bool {
    exists|call: Invocation, stored: Result<Completion<IssueValue>, StorageError>|
        {
            &&& service::is_invocation(call, authorized, request_json, now)
            &&& #[trigger] issues::archive_issue_outcome(before, after, call, r, stored)
            &&& answer == failure::project_result(stored)
        }
}

/// Whether `answer` is what the store makes of an admitted, valid request to put an external link.
pub open spec fn put_external_link_handled(
    before: Store,
    after: Store,
    authorized: Authorized,
    request_json: Seq<char>,
    now: Timestamp,
    r: PutExternalLinkRequest,
    answer: Result<Completion<ExternalLinkValue>, PluginError<ProjectsError>>,
) -> bool {
    exists|call: Invocation, stored: Result<Completion<ExternalLinkValue>, StorageError>|
        {
            &&& service::is_invocation(call, authorized, request_json, now)
            &&& #[trigger] issues::put_external_link_outcome(before, after, call, r, stored)
            &&& answer == failure::project_result(stored)
        }
}

/// Whether `answer` is what the store makes of an admitted, valid request to list activity.
pub open spec fn list_activity_handled(
    s: Store,
    authorized: Authorized,
    r: ListActivityRequest,
    answer: Result<Page<ActivityValue>, PluginError<ProjectsError>>,
) -> bool {
    exists|stored: Result<Page<ActivityValue>, StorageError>|
        {
            &&& #[trigger] activity::list_activity_outcome(s, authorized.actor@, r, stored)
            &&& answer == failure::project_result(stored)
        }
}

/// Whether `answer` is what the store makes of an admitted, valid request to list issue workflow states.
pub open spec fn list_issue_workflow_states_handled(
    s: Store,
    authorized: Authorized,
    r: ListIssueWorkflowStatesRequest,
    answer: Result<Page<WorkflowStateValue>, PluginError<ProjectsError>>,
) -> bool {
    exists|stored: Result<Page<WorkflowStateValue>, StorageError>|
        {
            &&& #[trigger] workflow::list_issue_workflow_states_outcome(s, authorized.actor@, r, stored)
            &&& answer == failure::project_result(stored)
        }
}

impl ProjectsService {
    /// Handles a request to create a project.
    pub fn create_project(
        &mut self,
        access: Result<Authorized, AuthorizationFailure>,
        request: &CreateProjectRequest,
        request_json: &str,
        now: &Timestamp,
        ids: &StatusIds,
    ) -> (answer: Result<Completion<ProjectValue>, PluginError<ProjectsError>>)
        ensures
            ({
                let gate = service::gate_of(
                    access,
                    validate::is_project_create(*request),
                    *old(self),
                );
                match gate {
                    Gate::Open(authorized) => {
                        &&& final(self).store is Some
                        &&& create_project_handled(
                            old(self).store->0,
                            final(self).store->0,
                            authorized,
                            request_json@,
                            *now,
                            *request,
                            *ids,
                            answer,
                        )
                    },
                    _ => service::project_blocked(gate, answer) && *final(self) == *old(self),
                }
            }),
    {
        let authorized = match self.enter(access, valid_project_create(request)) {
            Gate::Open(authorized) => authorized,
            gate => {
                return Err(block_project(gate));
            },
        };
        let call = invocation(&authorized, request_json, now);
        match &mut self.store {
            Some(store) => {
                let stored = store.create_project(&call, request, ids);
                assert(projects::create_project_outcome(old(self).store->0, *store, call, *request, *ids, stored));
                answer_project(stored)
            },
            None => Err(block_project(Gate::Unprepared)),
        }
    }

    /// Handles a request to get a project.
    pub fn get_project(
        &self,
        access: Result<Authorized, AuthorizationFailure>,
        request: &GetProjectRequest,
    ) -> (answer: Result<ProjectValue, PluginError<ProjectsError>>)
        ensures
            ({
                let gate = service::gate_of(access, validate::is_project_get(*request), *self);
                match gate {
                    Gate::Open(authorized) => get_project_handled(
                        self.store->0,
                        authorized,
                        *request,
                        answer,
                    ),
                    _ => service::project_blocked(gate, answer),
                }
            }),
    {
        let authorized = match self.enter(access, valid_project_get(request)) {
            Gate::Open(authorized) => authorized,
            gate => {
                return Err(block_project(gate));
            },
        };
        match &self.store {
            Some(store) => {
                let stored = store.get_project(authorized.actor.as_str(), request);
                assert(projects::get_project_outcome(*store, authorized.actor@, *request, stored));
                answer_project(stored)
            },
            None => Err(block_project(Gate::Unprepared)),
        }
    }

    /// Handles a request to list projects.
    pub fn list_projects(
        &self,
        access: Result<Authorized, AuthorizationFailure>,
        request: &ListProjectsRequest,
    ) -> (answer: Result<Page<ProjectValue>, PluginError<ProjectsError>>)
        ensures
            ({
                let gate = service::gate_of(access, validate::is_project_list(*request), *self);
                match gate {
                    Gate::Open(authorized) => list_projects_handled(
                        self.store->0,
                        authorized,
                        *request,
                        answer,
                    ),
                    _ => service::project_blocked(gate, answer),
                }
            }),
    {
        let authorized = match self.enter(access, valid_project_list(request)) {
            Gate::Open(authorized) => authorized,
            gate => {
                return Err(block_project(gate));
            },
        };
        match &self.store {
            Some(store) => {
                let stored = store.list_projects(authorized.actor.as_str(), request);
                assert(projects::list_projects_outcome(*store, authorized.actor@, *request, stored));
                answer_project(stored)
            },
            None => Err(block_project(Gate::Unprepared)),
        }
    }

    /// Handles a request to update a project.
    pub fn update_project(
        &mut self,
        access: Result<Authorized, AuthorizationFailure>,
        request: &UpdateProjectRequest,
        request_json: &str,
        now: &Timestamp,
        ids: &StatusIds,
    ) -> (answer: Result<Completion<ProjectValue>, PluginError<ProjectsError>>)
        ensures
            ({
                let gate = service::gate_of(
                    access,
                    validate::is_project_update(*request),
                    *old(self),
                );
                match gate {
                    Gate::Open(authorized) => {
                        &&& final(self).store is Some
                        &&& update_project_handled(
                            old(self).store->0,
                            final(self).store->0,
                            authorized,
                            request_json@,
                            *now,
                            *request,
                            *ids,
                            answer,
                        )
                    },
                    _ => service::project_blocked(gate, answer) && *final(self) == *old(self),
                }
            }),
    {
        let authorized = match self.enter(access, valid_project_update(request)) {
            Gate::Open(authorized) => authorized,
            gate => {
                return Err(block_project(gate));
            },
        };
        let call = invocation(&authorized, request_json, now);
        match &mut self.store {
            Some(store) => {
                let stored = store.update_project(&call, request, ids);
                assert(projects::update_project_outcome(old(self).store->0, *store, call, *request, *ids, stored));
                answer_project(stored)
            },
            None => Err(block_project(Gate::Unprepared)),
        }
    }

    /// Handles a request to archive a project.
    pub fn archive_project(
        &mut self,
        access: Result<Authorized, AuthorizationFailure>,
        request: &ArchiveProjectRequest,
        request_json: &str,
        now: &Timestamp,
    ) -> (answer: Result<Completion<ProjectValue>, PluginError<ProjectsError>>)
        ensures
            ({
                let gate = service::gate_of(
                    access,
                    validate::is_project_archive(*request),
                    *old(self),
                );
                match gate {
                    Gate::Open(authorized) => {
                        &&& final(self).store is Some
                        &&& archive_project_handled(
                            old(self).store->0,
                            final(self).store->0,
                            authorized,
                            request_json@,
                            *now,
                            *request,
                            answer,
                        )
                    },
                    _ => service::project_blocked(gate, answer) && *final(self) == *old(self),
                }
            }),
    {
        let authorized = match self.enter(access, valid_project_archive(request)) {
            Gate::Open(authorized) => authorized,
            gate => {
                return Err(block_project(gate));
            },
        };
        let call = invocation(&authorized, request_json, now);
        match &mut self.store {
            Some(store) => {
                let stored = store.archive_project(&call, request);
                assert(projects::archive_project_outcome(old(self).store->0, *store, call, *request, stored));
                answer_project(stored)
            },
            None => Err(block_project(Gate::Unprepared)),
        }
    }

    /// Handles a request to create an issue.
    pub fn create_issue(
        &mut self,
        access: Result<Authorized, AuthorizationFailure>,
        request: &CreateIssueRequest,
        request_json: &str,
        now: &Timestamp,
    ) -> (answer: Result<Completion<IssueValue>, PluginError<ProjectsError>>)
        ensures
            ({
                let gate = service::gate_of(access, validate::is_issue_create(*request), *old(self));
                match gate {
                    Gate::Open(authorized) => {
                        &&& final(self).store is Some
                        &&& create_issue_handled(
                            old(self).store->0,
                            final(self).store->0,
                            authorized,
                            request_json@,
                            *now,
                            *request,
                            answer,
                        )
                    },
                    _ => service::project_blocked(gate, answer) && *final(self) == *old(self),
                }
            }),
    {
        let authorized = match self.enter(access, valid_issue_create(request)) {
            Gate::Open(authorized) => authorized,
            gate => {
                return Err(block_project(gate));
            },
        };
        let call = invocation(&authorized, request_json, now);
        match &mut self.store {
            Some(store) => {
                let stored = store.create_issue(&call, request);
                assert(issues::create_issue_outcome(old(self).store->0, *store, call, *request, stored));
                answer_project(stored)
            },
            None => Err(block_project(Gate::Unprepared)),
        }
    }

    /// Handles a request to get an issue.
    pub fn get_issue(
        &self,
        access: Result<Authorized, AuthorizationFailure>,
        request: &GetIssueRequest,
    ) -> (answer: Result<IssueValue, PluginError<ProjectsError>>)
        ensures
            ({
                let gate = service::gate_of(access, validate::is_issue_get(*request), *self);
                match gate {
                    Gate::Open(authorized) => get_issue_handled(
                        self.store->0,
                        authorized,
                        *request,
                        answer,
                    ),
                    _ => service::project_blocked(gate, answer),
                }
            }),
    {
        let authorized = match self.enter(access, valid_issue_get(request)) {
            Gate::Open(authorized) => authorized,
            gate => {
                return Err(block_project(gate));
            },
        };
        match &self.store {
            Some(store) => {
                let stored = store.get_issue(authorized.actor.as_str(), request);
                assert(issues::get_issue_outcome(*store, authorized.actor@, *request, stored));
                answer_project(stored)
            },
            None => Err(block_project(Gate::Unprepared)),
        }
    }

    /// Handles a request to list issues.
    pub fn list_issues(
        &self,
        access: Result<Authorized, AuthorizationFailure>,
        request: &ListIssuesRequest,
    ) -> (answer: Result<Page<IssueValue>, PluginError<ProjectsError>>)
        ensures
            ({
                let gate = service::gate_of(access, validate::is_issue_list(*request), *self);
                match gate {
                    Gate::Open(authorized) => list_issues_handled(
                        self.store->0,
                        authorized,
                        *request,
                        answer,
                    ),
                    _ => service::project_blocked(gate, answer),
                }
            }),
    {
        let authorized = match self.enter(access, valid_issue_list(request)) {
            Gate::Open(authorized) => authorized,
            gate => {
                return Err(block_project(gate));
            },
        };
        match &self.store {
            Some(store) => {
                let stored = store.list_issues(authorized.actor.as_str(), request);
                assert(issues::list_issues_outcome(*store, authorized.actor@, *request, stored));
                answer_project(stored)
            },
            None => Err(block_project(Gate::Unprepared)),
        }
    }

    /// Handles a request to update an issue.
    pub fn update_issue(
        &mut self,
        access: Result<Authorized, AuthorizationFailure>,
        request: &UpdateIssueRequest,
        request_json: &str,
        now: &Timestamp,
    ) -> (answer: Result<Completion<IssueValue>, PluginError<ProjectsError>>)
        ensures
            ({
                let gate = service::gate_of(access, validate::is_issue_update(*request), *old(self));
                match gate {
                    Gate::Open(authorized) => {
                        &&& final(self).store is Some
                        &&& update_issue_handled(
                            old(self).store->0,
                            final(self).store->0,
                            authorized,
                            request_json@,
                            *now,
                            *request,
                            answer,
                        )
                    },
                    _ => service::project_blocked(gate, answer) && *final(self) == *old(self),
                }
            }),
    {
        let authorized = match self.enter(access, valid_issue_update(request)) {
            Gate::Open(authorized) => authorized,
            gate => {
                return Err(block_project(gate));
            },
        };
        let call = invocation(&authorized, request_json, now);
        match &mut self.store {
            Some(store) => {
                let stored = store.update_issue(&call, request);
                assert(issues::update_issue_outcome(old(self).store->0, *store, call, *request, stored));
                answer_project(stored)
            },
            None => Err(block_project(Gate::Unprepared)),
        }
    }

    /// Handles a request to move an issue.
    pub fn move_issue(
        &mut self,
        access: Result<Authorized, AuthorizationFailure>,
        request: &MoveIssueRequest,
        request_json: &str,
        now: &Timestamp,
    ) -> (answer: Result<Completion<IssueValue>, PluginError<ProjectsError>>)
        ensures
            ({
                let gate = service::gate_of(access, validate::is_issue_move(*request), *old(self));
                match gate {
                    Gate::Open(authorized) => {
                        &&& final(self).store is Some
                        &&& move_issue_handled(
                            old(self).store->0,
                            final(self).store->0,
                            authorized,
                            request_json@,
                            *now,
                            *request,
                            answer,
                        )
                    },
                    _ => service::project_blocked(gate, answer) && *final(self) == *old(self),
                }
            }),
    {
        let authorized = match self.enter(access, valid_issue_move(request)) {
            Gate::Open(authorized) => authorized,
            gate => {
                return Err(block_project(gate));
            },
        };
        let call = invocation(&authorized, request_json, now);
        match &mut self.store {
            Some(store) => {
                let stored = store.move_issue(&call, request);
                assert(issues::move_issue_outcome(old(self).store->0, *store, call, *request, stored));
                answer_project(stored)
            },
            None => Err(block_project(Gate::Unprepared)),
        }
    }

    /// Handles a request to archive an issue.
    pub fn archive_issue(
        &mut self,
        access: Result<Authorized, AuthorizationFailure>,
        request: &ArchiveIssueRequest,
        request_json: &str,
        now: &Timestamp,
    ) -> (answer: Result<Completion<IssueValue>, PluginError<ProjectsError>>)
        ensures
            ({
                let gate = service::gate_of(
                    access,
                    validate::is_issue_archive(*request),
                    *old(self),
                );
                match gate {
                    Gate::Open(authorized) => {
                        &&& final(self).store is Some
                        &&& archive_issue_handled(
                            old(self).store->0,
                            final(self).store->0,
                            authorized,
                            request_json@,
                            *now,
                            *request,
                            answer,
                        )
                    },
                    _ => service::project_blocked(gate, answer) && *final(self) == *old(self),
                }
            }),
    {
        let authorized = match self.enter(access, valid_issue_archive(request)) {
            Gate::Open(authorized) => authorized,
            gate => {
                return Err(block_project(gate));
            },
        };
        let call = invocation(&authorized, request_json, now);
        match &mut self.store {
            Some(store) => {
                let stored = store.archive_issue(&call, request);
                assert(issues::archive_issue_outcome(old(self).store->0, *store, call, *request, stored));
                answer_project(stored)
            },
            None => Err(block_project(Gate::Unprepared)),
        }
    }

    /// Handles a request to put an external link.
    pub fn put_external_link(
        &mut self,
        access: Result<Authorized, AuthorizationFailure>,
        request: &PutExternalLinkRequest,
        request_json: &str,
        now: &Timestamp,
    ) -> (answer: Result<Completion<ExternalLinkValue>, PluginError<ProjectsError>>)
        ensures
            ({
                let gate = service::gate_of(
                    access,
                    validate::is_external_link(*request),
                    *old(self),
                );
                match gate {
                    Gate::Open(authorized) => {
                        &&& final(self).store is Some
                        &&& put_external_link_handled(
                            old(self).store->0,
                            final(self).store->0,
                            authorized,
                            request_json@,
                            *now,
                            *request,
                            answer,
                        )
                    },
                    _ => service::project_blocked(gate, answer) && *final(self) == *old(self),
                }
            }),
    {
        let authorized = match self.enter(access, valid_external_link(request)) {
            Gate::Open(authorized) => authorized,
            gate => {
                return Err(block_project(gate));
            },
        };
        let call = invocation(&authorized, request_json, now);
        match &mut self.store {
            Some(store) => {
                let stored = store.put_external_link(&call, request);
                assert(issues::put_external_link_outcome(old(self).store->0, *store, call, *request, stored));
                answer_project(stored)
            },
            None => Err(block_project(Gate::Unprepared)),
        }
    }

    /// Handles a request to list activity.
    pub fn list_activity(
        &self,
        access: Result<Authorized, AuthorizationFailure>,
        request: &ListActivityRequest,
    ) -> (answer: Result<Page<ActivityValue>, PluginError<ProjectsError>>)
        ensures
            ({
                let gate = service::gate_of(access, validate::is_activity_list(*request), *self);
                match gate {
                    Gate::Open(authorized) => list_activity_handled(
                        self.store->0,
                        authorized,
                        *request,
                        answer,
                    ),
                    _ => service::project_blocked(gate, answer),
                }
            }),
    {
        let authorized = match self.enter(access, valid_activity_list(request)) {
            Gate::Open(authorized) => authorized,
            gate => {
                return Err(block_project(gate));
            },
        };
        match &self.store {
            Some(store) => {
                let stored = store.list_activity(authorized.actor.as_str(), request);
                assert(activity::list_activity_outcome(*store, authorized.actor@, *request, stored));
                answer_project(stored)
            },
            None => Err(block_project(Gate::Unprepared)),
        }
    }

    /// Handles a request to list issue workflow states.
    pub fn list_issue_workflow_states(
        &self,
        access: Result<Authorized, AuthorizationFailure>,
        request: &ListIssueWorkflowStatesRequest,
    ) -> (answer: Result<Page<WorkflowStateValue>, PluginError<ProjectsError>>)
        ensures
            ({
                let gate = service::gate_of(
                    access,
                    validate::is_issue_workflow_list(*request),
                    *self,
                );
                match gate {
                    Gate::Open(authorized) => list_issue_workflow_states_handled(
                        self.store->0,
                        authorized,
                        *request,
                        answer,
                    ),
                    _ => service::project_blocked(gate, answer),
                }
            }),
    {
        let authorized = match self.enter(access, valid_issue_workflow_list(request)) {
            Gate::Open(authorized) => authorized,
            gate => {
                return Err(block_project(gate));
            },
        };
        match &self.store {
            Some(store) => {
                let stored = store.list_issue_workflow_states(authorized.actor.as_str(), request);
                assert(workflow::list_issue_workflow_states_outcome(*store, authorized.actor@, *request, stored));
                answer_project(stored)
            },
            None => Err(block_project(Gate::Unprepared)),
        }
    }
}

} // verus!
