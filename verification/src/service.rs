//! The Plugin's state, and what every handler does before it turns to the store.
use crate::access;
use crate::access::{deny_admin, deny_collaboration, deny_project, AuthorizationFailure, Authorized};
use crate::clock::Timestamp;
use crate::failure::{
    AdminError, CollaborationError, PluginError, ProjectsError, RuntimeFailure,
};
use crate::store::{Invocation, Store};
use vstd::prelude::*;

verus! {

/// The Plugin: it has a store once it is prepared.
#[derive(Debug)]
pub struct ProjectsService {
    pub store: Option<Store>,
}

/// What a handler finds before it turns to the store.
#[derive(Debug)]
pub enum Gate {
    /// The invocation is not admitted.
    Denied(AuthorizationFailure),
    /// The request is not valid.
    Invalid,
    /// There is no store yet.
    Unprepared,
    /// The store can be turned to.
    Open(Authorized),
}

/// What a handler finds.
pub open spec fn gate_of(
    access: Result<Authorized, AuthorizationFailure>,
    valid: bool,
    service: ProjectsService,
) -> Gate {
    match access {
        Err(failure) => Gate::Denied(failure),
        Ok(authorized) => if !valid {
            Gate::Invalid
        } else if service.store is None {
            Gate::Unprepared
        } else {
            Gate::Open(authorized)
        },
    }
}

/// Whether `failure` says that the Plugin is not prepared.
pub open spec fn is_unprepared(failure: RuntimeFailure) -> bool {
    failure matches RuntimeFailure::PluginFailure { detail } && detail@
        == "Projects Plugin is not prepared"@
}

/// What the Projects contract answers at a closed gate.
pub open spec fn project_blocked<T>(gate: Gate, answer: Result<T, PluginError<ProjectsError>>) -> bool {
    match gate {
        Gate::Denied(failure) => answer == Err::<T, PluginError<ProjectsError>>(
            access::project_denial(failure),
        ),
        Gate::Invalid => answer == Err::<T, PluginError<ProjectsError>>(
            PluginError::Domain(ProjectsError::InvalidRequest),
        ),
        _ => answer matches Err(PluginError::Runtime(failure)) && is_unprepared(failure),
    }
}

/// What the Projects Collaboration contract answers at a closed gate.
pub open spec fn collaboration_blocked<T>(
    gate: Gate,
    answer: Result<T, PluginError<CollaborationError>>,
) -> bool {
    match gate {
        Gate::Denied(failure) => answer == Err::<T, PluginError<CollaborationError>>(
            access::collaboration_denial(failure),
        ),
        Gate::Invalid => answer == Err::<T, PluginError<CollaborationError>>(
            PluginError::Domain(CollaborationError::InvalidRequest),
        ),
        _ => answer matches Err(PluginError::Runtime(failure)) && is_unprepared(failure),
    }
}

/// What the Projects Admin contract answers at a closed gate.
pub open spec fn admin_blocked<T>(gate: Gate, answer: Result<T, PluginError<AdminError>>) -> bool {
    match gate {
        Gate::Denied(failure) => answer == Err::<T, PluginError<AdminError>>(
            access::admin_denial(failure),
        ),
        Gate::Invalid => answer == Err::<T, PluginError<AdminError>>(
            PluginError::Domain(AdminError::InvalidRequest),
        ),
        _ => answer matches Err(PluginError::Runtime(failure)) && is_unprepared(failure),
    }
}

/// The failure of an invocation that comes before the Plugin is prepared.
pub fn unprepared() -> (failure: RuntimeFailure)
    ensures
        is_unprepared(failure),
{
    RuntimeFailure::PluginFailure { detail: "Projects Plugin is not prepared".to_owned() }
}

/// What the Projects contract answers at a closed gate.
pub fn block_project(gate: Gate) -> (error: PluginError<ProjectsError>)
    ensures
        match gate {
            Gate::Denied(failure) => error == access::project_denial(failure),
            Gate::Invalid => error == PluginError::Domain(ProjectsError::InvalidRequest),
            _ => error matches PluginError::Runtime(failure) && is_unprepared(failure),
        },
{
    match gate {
        Gate::Denied(failure) => deny_project(failure),
        Gate::Invalid => PluginError::Domain(ProjectsError::InvalidRequest),
        _ => PluginError::Runtime(unprepared()),
    }
}

/// What the Projects Collaboration contract answers at a closed gate.
pub fn block_collaboration(gate: Gate) -> (error: PluginError<CollaborationError>)
    ensures
        match gate {
            Gate::Denied(failure) => error == access::collaboration_denial(failure),
            Gate::Invalid => error == PluginError::Domain(CollaborationError::InvalidRequest),
            _ => error matches PluginError::Runtime(failure) && is_unprepared(failure),
        },
{
    match gate {
        Gate::Denied(failure) => deny_collaboration(failure),
        Gate::Invalid => PluginError::Domain(CollaborationError::InvalidRequest),
        _ => PluginError::Runtime(unprepared()),
    }
}

/// What the Projects Admin contract answers at a closed gate.
pub fn block_admin(gate: Gate) -> (error: PluginError<AdminError>)
    ensures
        match gate {
            Gate::Denied(failure) => error == access::admin_denial(failure),
            Gate::Invalid => error == PluginError::Domain(AdminError::InvalidRequest),
            _ => error matches PluginError::Runtime(failure) && is_unprepared(failure),
        },
{
    match gate {
        Gate::Denied(failure) => deny_admin(failure),
        Gate::Invalid => PluginError::Domain(AdminError::InvalidRequest),
        _ => PluginError::Runtime(unprepared()),
    }
}

/// Whether `call` is the invocation of an admitted caller and actor.
pub open spec fn is_invocation(
    call: Invocation,
    authorized: Authorized,
    request_json: Seq<char>,
    now: Timestamp,
) -> bool {
    &&& call.caller@ == authorized.caller@
    &&& call.actor@ == authorized.actor@
    &&& call.request_json@ == request_json
    &&& call.now == now
}

/// The invocation of an admitted caller and actor.
pub fn invocation(authorized: &Authorized, request_json: &str, now: &Timestamp) -> (call: Invocation)
    ensures
        is_invocation(call, *authorized, request_json@, *now),
{
    Invocation {
        caller: authorized.caller.clone(),
        actor: authorized.actor.clone(),
        request_json: request_json.to_owned(),
        now: now.clone(),
    }
}

impl ProjectsService {
    /// The Plugin before it is prepared.
    pub fn new() -> (service: ProjectsService)
        ensures
            service.store is None,
    {
        ProjectsService { store: None }
    }

    /// Gives the Plugin its store.
    pub fn activate(&mut self, store: Store)
        ensures
            final(self).store == Some(store),
    {
        self.store = Some(store);
    }

    /// Takes the store of the Plugin.
    pub fn deactivate(&mut self) -> (store: Option<Store>)
        ensures
            final(self).store is None,
            store == old(self).store,
    {
        self.store.take()
    }

    /// What a handler finds.
    pub(crate) fn enter(&self, access: Result<Authorized, AuthorizationFailure>, valid: bool) -> (gate:
        Gate)
        ensures
            gate == gate_of(access, valid, *self),
    {
        match access {
            Err(failure) => Gate::Denied(failure),
            Ok(authorized) => if !valid {
                Gate::Invalid
            } else if self.store.is_none() {
                Gate::Unprepared
            } else {
                Gate::Open(authorized)
            },
        }
    }
}

} // verus!
