//! The Projects Collaboration contract.
use crate::access;
use crate::access::{deny_collaboration, membership_answer, AuthorizationFailure, Authorized, PortReply};
use crate::clock::Timestamp;
use crate::collaboration;
use crate::contract::MEMBERSHIP_CAPABILITY;
use crate::failure;
use crate::failure::{answer_collaboration, CollaborationError, PluginError, StorageError};
use crate::issues;
use crate::model::{
    AddCommentRequest, AddIssueRelationRequest, AssigneeValue, CommentValue, Completion,
    CreateProjectUpdateRequest, DeleteCommentRequest, GetIssueAssigneeRequest, ListCommentsRequest,
    ListProjectUpdatesRequest, ProjectUpdateValue, RelationValue, RemoveIssueRelationRequest,
    SetIssueAssigneeRequest, UpdateCommentRequest,
};
use crate::service;
use crate::service::{block_collaboration, invocation, Gate, ProjectsService};
use crate::store::{Invocation, Store};
use crate::table::Page;
use crate::validate;
use crate::validate::{
    valid_assignee_get, valid_assignee_set, valid_comment_add, valid_comment_delete,
    valid_comment_list, valid_comment_update, valid_project_update_create,
    valid_project_update_list, valid_relation_add, valid_relation_remove,
};
use vstd::prelude::*;

verus! {

/// Whether `answer` is what the store makes of an admitted, valid request to add a comment.
pub open spec fn add_comment_handled(
    before: Store,
    after: Store,
    authorized: Authorized,
    request_json: Seq<char>,
    now: Timestamp,
    r: AddCommentRequest,
    answer: Result<Completion<CommentValue>, PluginError<CollaborationError>>,
) -> bool {
    exists|call: Invocation, stored: Result<Completion<CommentValue>, StorageError>|
        {
            &&& service::is_invocation(call, authorized, request_json, now)
            &&& #[trigger] collaboration::add_comment_outcome(before, after, call, r, stored)
            &&& answer == failure::collaboration_result(stored)
        }
}

/// Whether `answer` is what the store makes of an admitted, valid request to update a comment.
pub open spec fn update_comment_handled(
    before: Store,
    after: Store,
    authorized: Authorized,
    request_json: Seq<char>,
    now: Timestamp,
    r: UpdateCommentRequest,
    answer: Result<Completion<CommentValue>, PluginError<CollaborationError>>,
) -> bool {
    exists|call: Invocation, stored: Result<Completion<CommentValue>, StorageError>|
        {
            &&& service::is_invocation(call, authorized, request_json, now)
            &&& #[trigger] collaboration::update_comment_outcome(before, after, call, r, stored)
            &&& answer == failure::collaboration_result(stored)
        }
}

/// Whether `answer` is what the store makes of an admitted, valid request to delete a comment.
pub open spec fn delete_comment_handled(
    before: Store,
    after: Store,
    authorized: Authorized,
    request_json: Seq<char>,
    now: Timestamp,
    r: DeleteCommentRequest,
    answer: Result<Completion<CommentValue>, PluginError<CollaborationError>>,
) -> bool {
    exists|call: Invocation, stored: Result<Completion<CommentValue>, StorageError>|
        {
            &&& service::is_invocation(call, authorized, request_json, now)
            &&& #[trigger] collaboration::delete_comment_outcome(before, after, call, r, stored)
            &&& answer == failure::collaboration_result(stored)
        }
}

/// Whether `answer` is what the store makes of an admitted, valid request to list comments.
pub open spec fn list_comments_handled(
    s: Store,
    authorized: Authorized,
    r: ListCommentsRequest,
    answer: Result<Page<CommentValue>, PluginError<CollaborationError>>,
) -> bool {
    exists|stored: Result<Page<CommentValue>, StorageError>|
        {
            &&& #[trigger] collaboration::list_comments_outcome(s, authorized.actor@, r, stored)
            &&& answer == failure::collaboration_result(stored)
        }
}

/// Whether `answer` is what the store makes of an admitted, valid request to create a project update.
pub open spec fn create_project_update_handled(
    before: Store,
    after: Store,
    authorized: Authorized,
    request_json: Seq<char>,
    now: Timestamp,
    r: CreateProjectUpdateRequest,
    answer: Result<Completion<ProjectUpdateValue>, PluginError<CollaborationError>>,
) -> bool {
    exists|call: Invocation, stored: Result<Completion<ProjectUpdateValue>, StorageError>|
        {
            &&& service::is_invocation(call, authorized, request_json, now)
            &&& #[trigger] collaboration::create_project_update_outcome(before, after, call, r, stored)
            &&& answer == failure::collaboration_result(stored)
        }
}

/// Whether `answer` is what the store makes of an admitted, valid request to list project updates.
pub open spec fn list_project_updates_handled(
    s: Store,
    authorized: Authorized,
    r: ListProjectUpdatesRequest,
    answer: Result<Page<ProjectUpdateValue>, PluginError<CollaborationError>>,
) -> bool {
    exists|stored: Result<Page<ProjectUpdateValue>, StorageError>|
        {
            &&& #[trigger] collaboration::list_project_updates_outcome(s, authorized.actor@, r, stored)
            &&& answer == failure::collaboration_result(stored)
        }
}

/// Whether `answer` is what the store makes of an admitted, valid request to add an issue relation.
pub open spec fn add_issue_relation_handled(
    before: Store,
    after: Store,
    authorized: Authorized,
    request_json: Seq<char>,
    now: Timestamp,
    r: AddIssueRelationRequest,
    answer: Result<Completion<RelationValue>, PluginError<CollaborationError>>,
) -> bool {
    exists|call: Invocation, stored: Result<Completion<RelationValue>, StorageError>|
        {
            &&& service::is_invocation(call, authorized, request_json, now)
            &&& #[trigger] collaboration::add_issue_relation_outcome(before, after, call, r, stored)
            &&& answer == failure::collaboration_result(stored)
        }
}

/// Whether `answer` is what the store makes of an admitted, valid request to remove an issue relation.
pub open spec fn remove_issue_relation_handled(
    before: Store,
    after: Store,
    authorized: Authorized,
    request_json: Seq<char>,
    now: Timestamp,
    r: RemoveIssueRelationRequest,
    answer: Result<Completion<RelationValue>, PluginError<CollaborationError>>,
) -> bool {
    exists|call: Invocation, stored: Result<Completion<RelationValue>, StorageError>|
        {
            &&& service::is_invocation(call, authorized, request_json, now)
            &&& #[trigger] collaboration::remove_issue_relation_outcome(before, after, call, r, stored)
            &&& answer == failure::collaboration_result(stored)
        }
}

/// Whether `answer` is what the store makes of an admitted, valid request to get an issue assignee.
pub open spec fn get_issue_assignee_handled(
    s: Store,
    authorized: Authorized,
    r: GetIssueAssigneeRequest,
    answer: Result<AssigneeValue, PluginError<CollaborationError>>,
) -> bool {
    exists|stored: Result<AssigneeValue, StorageError>|
        {
            &&& #[trigger] issues::get_issue_assignee_outcome(s, authorized.actor@, r, stored)
            &&& answer == failure::collaboration_result(stored)
        }
}

/// Whether `answer` is what the store makes of an admitted, valid request to set an issue assignee.
pub open spec fn set_issue_assignee_handled(
    before: Store,
    after: Store,
    authorized: Authorized,
    request_json: Seq<char>,
    now: Timestamp,
    r: SetIssueAssigneeRequest,
    answer: Result<Completion<AssigneeValue>, PluginError<CollaborationError>>,
) -> bool {
    exists|call: Invocation, stored: Result<Completion<AssigneeValue>, StorageError>|
        {
            &&& service::is_invocation(call, authorized, request_json, now)
            &&& #[trigger] issues::set_issue_assignee_outcome(before, after, call, r, stored)
            &&& answer == failure::collaboration_result(stored)
        }
}

impl ProjectsService {
    /// Handles a request to add a comment.
    pub fn add_comment(
        &mut self,
        access: Result<Authorized, AuthorizationFailure>,
        request: &AddCommentRequest,
        request_json: &str,
        now: &Timestamp,
    ) -> (answer: Result<Completion<CommentValue>, PluginError<CollaborationError>>)
        ensures
            ({
                let gate = service::gate_of(access, validate::is_comment_add(*request), *old(self));
                match gate {
                    Gate::Open(authorized) => {
                        &&& final(self).store is Some
                        &&& add_comment_handled(
                            old(self).store->0,
                            final(self).store->0,
                            authorized,
                            request_json@,
                            *now,
                            *request,
                            answer,
                        )
                    },
                    _ => service::collaboration_blocked(gate, answer) && *final(self) == *old(self),
                }
            }),
    {
        let authorized = match self.enter(access, valid_comment_add(request)) {
            Gate::Open(authorized) => authorized,
            gate => {
                return Err(block_collaboration(gate));
            },
        };
        let call = invocation(&authorized, request_json, now);
        match &mut self.store {
            Some(store) => {
                let stored = store.add_comment(&call, request);
                assert(collaboration::add_comment_outcome(old(self).store->0, *store, call, *request, stored));
                answer_collaboration(stored)
            },
            None => Err(block_collaboration(Gate::Unprepared)),
        }
    }

    /// Handles a request to update a comment.
    pub fn update_comment(
        &mut self,
        access: Result<Authorized, AuthorizationFailure>,
        request: &UpdateCommentRequest,
        request_json: &str,
        now: &Timestamp,
    ) -> (answer: Result<Completion<CommentValue>, PluginError<CollaborationError>>)
        ensures
            ({
                let gate = service::gate_of(
                    access,
                    validate::is_comment_update(*request),
                    *old(self),
                );
                match gate {
                    Gate::Open(authorized) => {
                        &&& final(self).store is Some
                        &&& update_comment_handled(
                            old(self).store->0,
                            final(self).store->0,
                            authorized,
                            request_json@,
                            *now,
                            *request,
                            answer,
                        )
                    },
                    _ => service::collaboration_blocked(gate, answer) && *final(self) == *old(self),
                }
            }),
    {
        let authorized = match self.enter(access, valid_comment_update(request)) {
            Gate::Open(authorized) => authorized,
            gate => {
                return Err(block_collaboration(gate));
            },
        };
        let call = invocation(&authorized, request_json, now);
        match &mut self.store {
            Some(store) => {
                let stored = store.update_comment(&call, request);
                assert(collaboration::update_comment_outcome(old(self).store->0, *store, call, *request, stored));
                answer_collaboration(stored)
            },
            None => Err(block_collaboration(Gate::Unprepared)),
        }
    }

    /// Handles a request to delete a comment.
    pub fn delete_comment(
        &mut self,
        access: Result<Authorized, AuthorizationFailure>,
        request: &DeleteCommentRequest,
        request_json: &str,
        now: &Timestamp,
    ) -> (answer: Result<Completion<CommentValue>, PluginError<CollaborationError>>)
        ensures
            ({
                let gate = service::gate_of(
                    access,
                    validate::is_comment_delete(*request),
                    *old(self),
                );
                match gate {
                    Gate::Open(authorized) => {
                        &&& final(self).store is Some
                        &&& delete_comment_handled(
                            old(self).store->0,
                            final(self).store->0,
                            authorized,
                            request_json@,
                            *now,
                            *request,
                            answer,
                        )
                    },
                    _ => service::collaboration_blocked(gate, answer) && *final(self) == *old(self),
                }
            }),
    {
        let authorized = match self.enter(access, valid_comment_delete(request)) {
            Gate::Open(authorized) => authorized,
            gate => {
                return Err(block_collaboration(gate));
            },
        };
        let call = invocation(&authorized, request_json, now);
        match &mut self.store {
            Some(store) => {
                let stored = store.delete_comment(&call, request);
                assert(collaboration::delete_comment_outcome(old(self).store->0, *store, call, *request, stored));
                answer_collaboration(stored)
            },
            None => Err(block_collaboration(Gate::Unprepared)),
        }
    }

    /// Handles a request to list comments.
    pub fn list_comments(
        &self,
        access: Result<Authorized, AuthorizationFailure>,
        request: &ListCommentsRequest,
    ) -> (answer: Result<Page<CommentValue>, PluginError<CollaborationError>>)
        ensures
            ({
                let gate = service::gate_of(access, validate::is_comment_list(*request), *self);
                match gate {
                    Gate::Open(authorized) => list_comments_handled(
                        self.store->0,
                        authorized,
                        *request,
                        answer,
                    ),
                    _ => service::collaboration_blocked(gate, answer),
                }
            }),
    {
        let authorized = match self.enter(access, valid_comment_list(request)) {
            Gate::Open(authorized) => authorized,
            gate => {
                return Err(block_collaboration(gate));
            },
        };
        match &self.store {
            Some(store) => {
                let stored = store.list_comments(authorized.actor.as_str(), request);
                assert(collaboration::list_comments_outcome(*store, authorized.actor@, *request, stored));
                answer_collaboration(stored)
            },
            None => Err(block_collaboration(Gate::Unprepared)),
        }
    }

    /// Handles a request to create a project update.
    pub fn create_project_update(
        &mut self,
        access: Result<Authorized, AuthorizationFailure>,
        request: &CreateProjectUpdateRequest,
        request_json: &str,
        now: &Timestamp,
    ) -> (answer: Result<Completion<ProjectUpdateValue>, PluginError<CollaborationError>>)
        ensures
            ({
                let gate = service::gate_of(
                    access,
                    validate::is_project_update_create(*request),
                    *old(self),
                );
                match gate {
                    Gate::Open(authorized) => {
                        &&& final(self).store is Some
                        &&& create_project_update_handled(
                            old(self).store->0,
                            final(self).store->0,
                            authorized,
                            request_json@,
                            *now,
                            *request,
                            answer,
                        )
                    },
                    _ => service::collaboration_blocked(gate, answer) && *final(self) == *old(self),
                }
            }),
    {
        let authorized = match self.enter(access, valid_project_update_create(request)) {
            Gate::Open(authorized) => authorized,
            gate => {
                return Err(block_collaboration(gate));
            },
        };
        let call = invocation(&authorized, request_json, now);
        match &mut self.store {
            Some(store) => {
                let stored = store.create_project_update(&call, request);
                assert(collaboration::create_project_update_outcome(old(self).store->0, *store, call, *request, stored));
                answer_collaboration(stored)
            },
            None => Err(block_collaboration(Gate::Unprepared)),
        }
    }

    /// Handles a request to list project updates.
    pub fn list_project_updates(
        &self,
        access: Result<Authorized, AuthorizationFailure>,
        request: &ListProjectUpdatesRequest,
    ) -> (answer: Result<Page<ProjectUpdateValue>, PluginError<CollaborationError>>)
        ensures
            ({
                let gate = service::gate_of(
                    access,
                    validate::is_project_update_list(*request),
                    *self,
                );
                match gate {
                    Gate::Open(authorized) => list_project_updates_handled(
                        self.store->0,
                        authorized,
                        *request,
                        answer,
                    ),
                    _ => service::collaboration_blocked(gate, answer),
                }
            }),
    {
        let authorized = match self.enter(access, valid_project_update_list(request)) {
            Gate::Open(authorized) => authorized,
            gate => {
                return Err(block_collaboration(gate));
            },
        };
        match &self.store {
            Some(store) => {
                let stored = store.list_project_updates(authorized.actor.as_str(), request);
                assert(collaboration::list_project_updates_outcome(*store, authorized.actor@, *request, stored));
                answer_collaboration(stored)
            },
            None => Err(block_collaboration(Gate::Unprepared)),
        }
    }

    /// Handles a request to add an issue relation.
    pub fn add_issue_relation(
        &mut self,
        access: Result<Authorized, AuthorizationFailure>,
        request: &AddIssueRelationRequest,
        request_json: &str,
        now: &Timestamp,
    ) -> (answer: Result<Completion<RelationValue>, PluginError<CollaborationError>>)
        ensures
            ({
                let gate = service::gate_of(access, validate::is_relation_add(*request), *old(self));
                match gate {
                    Gate::Open(authorized) => {
                        &&& final(self).store is Some
                        &&& add_issue_relation_handled(
                            old(self).store->0,
                            final(self).store->0,
                            authorized,
                            request_json@,
                            *now,
                            *request,
                            answer,
                        )
                    },
                    _ => service::collaboration_blocked(gate, answer) && *final(self) == *old(self),
                }
            }),
    {
        let authorized = match self.enter(access, valid_relation_add(request)) {
            Gate::Open(authorized) => authorized,
            gate => {
                return Err(block_collaboration(gate));
            },
        };
        let call = invocation(&authorized, request_json, now);
        match &mut self.store {
            Some(store) => {
                let stored = store.add_issue_relation(&call, request);
                assert(collaboration::add_issue_relation_outcome(old(self).store->0, *store, call, *request, stored));
                answer_collaboration(stored)
            },
            None => Err(block_collaboration(Gate::Unprepared)),
        }
    }

    /// Handles a request to remove an issue relation.
    pub fn remove_issue_relation(
        &mut self,
        access: Result<Authorized, AuthorizationFailure>,
        request: &RemoveIssueRelationRequest,
        request_json: &str,
        now: &Timestamp,
    ) -> (answer: Result<Completion<RelationValue>, PluginError<CollaborationError>>)
        ensures
            ({
                let gate = service::gate_of(
                    access,
                    validate::is_relation_remove(*request),
                    *old(self),
                );
                match gate {
                    Gate::Open(authorized) => {
                        &&& final(self).store is Some
                        &&& remove_issue_relation_handled(
                            old(self).store->0,
                            final(self).store->0,
                            authorized,
                            request_json@,
                            *now,
                            *request,
                            answer,
                        )
                    },
                    _ => service::collaboration_blocked(gate, answer) && *final(self) == *old(self),
                }
            }),
    {
        let authorized = match self.enter(access, valid_relation_remove(request)) {
            Gate::Open(authorized) => authorized,
            gate => {
                return Err(block_collaboration(gate));
            },
        };
        let call = invocation(&authorized, request_json, now);
        match &mut self.store {
            Some(store) => {
                let stored = store.remove_issue_relation(&call, request);
                assert(collaboration::remove_issue_relation_outcome(old(self).store->0, *store, call, *request, stored));
                answer_collaboration(stored)
            },
            None => Err(block_collaboration(Gate::Unprepared)),
        }
    }

    /// Handles a request to get an issue assignee.
    pub fn get_issue_assignee(
        &self,
        access: Result<Authorized, AuthorizationFailure>,
        request: &GetIssueAssigneeRequest,
    ) -> (answer: Result<AssigneeValue, PluginError<CollaborationError>>)
        ensures
            ({
                let gate = service::gate_of(access, validate::is_assignee_get(*request), *self);
                match gate {
                    Gate::Open(authorized) => get_issue_assignee_handled(
                        self.store->0,
                        authorized,
                        *request,
                        answer,
                    ),
                    _ => service::collaboration_blocked(gate, answer),
                }
            }),
    {
        let authorized = match self.enter(access, valid_assignee_get(request)) {
            Gate::Open(authorized) => authorized,
            gate => {
                return Err(block_collaboration(gate));
            },
        };
        match &self.store {
            Some(store) => {
                let stored = store.get_issue_assignee(authorized.actor.as_str(), request);
                assert(issues::get_issue_assignee_outcome(*store, authorized.actor@, *request, stored));
                answer_collaboration(stored)
            },
            None => Err(block_collaboration(Gate::Unprepared)),
        }
    }

    /// Handles a request to set an issue assignee.
    pub fn set_issue_assignee(
        &mut self,
        access: Result<Authorized, AuthorizationFailure>,
        member: PortReply,
        request: &SetIssueAssigneeRequest,
        request_json: &str,
        now: &Timestamp,
    ) -> (answer: Result<Completion<AssigneeValue>, PluginError<CollaborationError>>)
        ensures
            ({
                let gate = service::gate_of(access, validate::is_assignee_set(*request), *old(self));
                match gate {
                    Gate::Open(authorized) => if request.assignee_subject is Some && member
                        != PortReply::Answered(true) {
                        &&& *final(self) == *old(self)
                        &&& answer matches Err(error)
                        &&& exists|failure: AuthorizationFailure|
                            #[trigger] access::port_failure(member, MEMBERSHIP_CAPABILITY@, failure)
                                && error == access::collaboration_denial(failure)
                    } else {
                        &&& final(self).store is Some
                        &&& set_issue_assignee_handled(
                            old(self).store->0,
                            final(self).store->0,
                            authorized,
                            request_json@,
                            *now,
                            *request,
                            answer,
                        )
                    },
                    _ => service::collaboration_blocked(gate, answer) && *final(self) == *old(self),
                }
            }),
    {
        let authorized = match self.enter(access, valid_assignee_set(request)) {
            Gate::Open(authorized) => authorized,
            gate => {
                return Err(block_collaboration(gate));
            },
        };
        if request.assignee_subject.is_some() {
            if let Err(failure) = membership_answer(member) {
                return Err(deny_collaboration(failure));
            }
        }
        let call = invocation(&authorized, request_json, now);
        match &mut self.store {
            Some(store) => {
                let stored = store.set_issue_assignee(&call, request);
                assert(issues::set_issue_assignee_outcome(old(self).store->0, *store, call, *request, stored));
                answer_collaboration(stored)
            },
            None => Err(block_collaboration(Gate::Unprepared)),
        }
    }
}

} // verus!
