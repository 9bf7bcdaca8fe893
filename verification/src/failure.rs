//! Failures: what storage refuses, how the runtime fails, and what each contract answers.
use vstd::prelude::*;

verus! {

/// A refusal that belongs to the domain.
#[derive(Clone, Copy, Debug, PartialEq, Eq, Structural)]
pub enum DomainFailure {
    InvalidRequest,
    IdempotencyConflict,
    NotFound,
    RevisionConflict,
    TeamNotFound,
    WorkflowStateNotFound,
    ProjectStatusNotFound,
    CycleNotFound,
    MilestoneNotFound,
    ParentNotFound,
    LabelNotFound,
    PrivateTeam,
    IdentifierConflict,
    AuthorRequired,
    CannotRelateSelf,
    RelationConflict,
    KeyConflict,
    DefaultStateInvalid,
    ActiveReference,
}

/// A failure of the runtime, as opposed to a refusal of the domain.
#[derive(Clone, Debug, PartialEq, Eq)]
pub enum RuntimeFailure {
    Unavailable { capability: String },
    UnknownOperation { capability: String, operation: String },
    AmbiguousBinding { capability: String, providers: usize },
    ProtocolViolation { capability: String },
    MissingPluginFactory { instance: String, package_id: String },
    UnavailableExecutionClass { instance_key: String, execution_class: String },
    InvalidResolvedPlan { detail: String },
    AdmissionClosed,
    ResourceExhausted { capability: String, operation: String },
    DeadlineExceeded { request_id: u64 },
    Cancelled { request_id: u64 },
    Internal { detail: String },
    PluginFailure { detail: String },
    PluginRestartExhausted { instance: String, attempts: usize },
}

/// Why a storage operation did not succeed.
#[derive(Clone, Debug, PartialEq, Eq)]
pub enum StorageError {
    Domain(DomainFailure),
    Runtime(RuntimeFailure),
}

/// An error of a capability: a domain answer or a runtime failure.
#[derive(Clone, Debug, PartialEq, Eq)]
pub enum PluginError<E> {
    Domain(E),
    Runtime(RuntimeFailure),
}

/// The detail text of a failed storage operation.
pub open spec fn failure_detail(operation: Seq<char>, source: Seq<char>) -> Seq<char> {
    "Projects PostgreSQL operation `"@ + operation + "` failed: "@ + source
}

/// Whether `error` is the runtime failure of the storage operation `operation`.
pub open spec fn is_runtime(error: StorageError, operation: Seq<char>, source: Seq<char>) -> bool {
    error matches StorageError::Runtime(RuntimeFailure::PluginFailure { detail }) && detail@
        == failure_detail(operation, source)
}

/// The runtime failure of the storage operation `operation`.
pub fn runtime(operation: &str, source: &str) -> (error: StorageError)
    ensures
        is_runtime(error, operation@, source@),
{
    let mut detail = "Projects PostgreSQL operation `".to_owned();
    detail.append(operation);
    detail.append("` failed: ");
    detail.append(source);
    StorageError::Runtime(RuntimeFailure::PluginFailure { detail })
}

/// What the Projects contract answers.
#[derive(Clone, Copy, Debug, PartialEq, Eq, Structural)]
pub enum ProjectsError {
    InvalidRequest,
    Unauthenticated,
    Forbidden,
    IdempotencyConflict,
    NotFound,
    RevisionConflict,
    TeamNotFound,
    WorkflowStateNotFound,
    ProjectStatusNotFound,
    CycleNotFound,
    MilestoneNotFound,
    ParentNotFound,
    LabelNotFound,
    PrivateTeam,
    IdentifierConflict,
    Unknown,
}

/// What the Projects Collaboration contract answers.
#[derive(Clone, Copy, Debug, PartialEq, Eq, Structural)]
pub enum CollaborationError {
    InvalidRequest,
    Unauthenticated,
    Forbidden,
    IdempotencyConflict,
    NotFound,
    RevisionConflict,
    PrivateTeam,
    AuthorRequired,
    CannotRelateSelf,
    RelationConflict,
    Unknown,
}

/// What the Projects Admin contract answers.
#[derive(Clone, Copy, Debug, PartialEq, Eq, Structural)]
pub enum AdminError {
    InvalidRequest,
    Unauthenticated,
    Forbidden,
    IdempotencyConflict,
    NotFound,
    RevisionConflict,
    KeyConflict,
    DefaultStateInvalid,
    ActiveReference,
    Unknown,
}

/// What a governance contract answers.
#[derive(Clone, Copy, Debug, PartialEq, Eq, Structural)]
pub enum GovernanceError {
    InvalidRequest,
    Forbidden,
}

/// The answer of the Projects contract to a storage refusal.
pub open spec fn project_answer(failure: DomainFailure) -> ProjectsError {
    match failure {
        DomainFailure::IdempotencyConflict => ProjectsError::IdempotencyConflict,
        DomainFailure::NotFound => ProjectsError::NotFound,
        DomainFailure::RevisionConflict => ProjectsError::RevisionConflict,
        DomainFailure::TeamNotFound => ProjectsError::TeamNotFound,
        DomainFailure::WorkflowStateNotFound => ProjectsError::WorkflowStateNotFound,
        DomainFailure::ProjectStatusNotFound => ProjectsError::ProjectStatusNotFound,
        DomainFailure::CycleNotFound => ProjectsError::CycleNotFound,
        DomainFailure::MilestoneNotFound => ProjectsError::MilestoneNotFound,
        DomainFailure::ParentNotFound => ProjectsError::ParentNotFound,
        DomainFailure::LabelNotFound => ProjectsError::LabelNotFound,
        DomainFailure::PrivateTeam => ProjectsError::PrivateTeam,
        DomainFailure::IdentifierConflict => ProjectsError::IdentifierConflict,
        _ => ProjectsError::InvalidRequest,
    }
}

/// The answer of the Projects Collaboration contract to a storage refusal.
pub open spec fn collaboration_answer(failure: DomainFailure) -> CollaborationError {
    match failure {
        DomainFailure::IdempotencyConflict => CollaborationError::IdempotencyConflict,
        DomainFailure::NotFound => CollaborationError::NotFound,
        DomainFailure::RevisionConflict => CollaborationError::RevisionConflict,
        DomainFailure::PrivateTeam => CollaborationError::PrivateTeam,
        DomainFailure::AuthorRequired => CollaborationError::AuthorRequired,
        DomainFailure::CannotRelateSelf => CollaborationError::CannotRelateSelf,
        DomainFailure::RelationConflict => CollaborationError::RelationConflict,
        DomainFailure::IdentifierConflict => CollaborationError::RelationConflict,
        _ => CollaborationError::InvalidRequest,
    }
}

/// The answer of the Projects Admin contract to a storage refusal.
pub open spec fn admin_answer(failure: DomainFailure) -> AdminError {
    match failure {
        DomainFailure::IdempotencyConflict => AdminError::IdempotencyConflict,
        DomainFailure::NotFound => AdminError::NotFound,
        DomainFailure::RevisionConflict => AdminError::RevisionConflict,
        DomainFailure::KeyConflict => AdminError::KeyConflict,
        DomainFailure::DefaultStateInvalid => AdminError::DefaultStateInvalid,
        DomainFailure::ActiveReference => AdminError::ActiveReference,
        _ => AdminError::InvalidRequest,
    }
}

/// What a storage result becomes in the Projects contract.
pub open spec fn project_result<T>(result: Result<T, StorageError>) -> Result<
    T,
    PluginError<ProjectsError>,
> {
    match result {
        Ok(value) => Ok(value),
        Err(StorageError::Domain(failure)) => Err(PluginError::Domain(project_answer(failure))),
        Err(StorageError::Runtime(failure)) => Err(PluginError::Runtime(failure)),
    }
}

/// What a storage result becomes in the Projects Collaboration contract.
pub open spec fn collaboration_result<T>(result: Result<T, StorageError>) -> Result<
    T,
    PluginError<CollaborationError>,
> {
    match result {
        Ok(value) => Ok(value),
        Err(StorageError::Domain(failure)) => Err(
            PluginError::Domain(collaboration_answer(failure)),
        ),
        Err(StorageError::Runtime(failure)) => Err(PluginError::Runtime(failure)),
    }
}

/// What a storage result becomes in the Projects Admin contract.
pub open spec fn admin_result<T>(result: Result<T, StorageError>) -> Result<
    T,
    PluginError<AdminError>,
> {
    match result {
        Ok(value) => Ok(value),
        Err(StorageError::Domain(failure)) => Err(PluginError::Domain(admin_answer(failure))),
        Err(StorageError::Runtime(failure)) => Err(PluginError::Runtime(failure)),
    }
}

/// What a storage result becomes in a governance contract.
pub open spec fn governance_result<T>(result: Result<T, StorageError>) -> Result<
    T,
    PluginError<GovernanceError>,
> {
    match result {
        Ok(value) => Ok(value),
        Err(StorageError::Domain(_)) => Err(PluginError::Domain(GovernanceError::InvalidRequest)),
        Err(StorageError::Runtime(failure)) => Err(PluginError::Runtime(failure)),
    }
}

/// The answer of the Projects contract to a storage refusal.
pub fn project_error(failure: DomainFailure) -> (error: ProjectsError)
    ensures
        error == project_answer(failure),
{
    match failure {
        DomainFailure::IdempotencyConflict => ProjectsError::IdempotencyConflict,
        DomainFailure::NotFound => ProjectsError::NotFound,
        DomainFailure::RevisionConflict => ProjectsError::RevisionConflict,
        DomainFailure::TeamNotFound => ProjectsError::TeamNotFound,
        DomainFailure::WorkflowStateNotFound => ProjectsError::WorkflowStateNotFound,
        DomainFailure::ProjectStatusNotFound => ProjectsError::ProjectStatusNotFound,
        DomainFailure::CycleNotFound => ProjectsError::CycleNotFound,
        DomainFailure::MilestoneNotFound => ProjectsError::MilestoneNotFound,
        DomainFailure::ParentNotFound => ProjectsError::ParentNotFound,
        DomainFailure::LabelNotFound => ProjectsError::LabelNotFound,
        DomainFailure::PrivateTeam => ProjectsError::PrivateTeam,
        DomainFailure::IdentifierConflict => ProjectsError::IdentifierConflict,
        _ => ProjectsError::InvalidRequest,
    }
}

/// The answer of the Projects Collaboration contract to a storage refusal.
pub fn collaboration_error(failure: DomainFailure) -> (error: CollaborationError)
    ensures
        error == collaboration_answer(failure),
{
    match failure {
        DomainFailure::IdempotencyConflict => CollaborationError::IdempotencyConflict,
        DomainFailure::NotFound => CollaborationError::NotFound,
        DomainFailure::RevisionConflict => CollaborationError::RevisionConflict,
        DomainFailure::PrivateTeam => CollaborationError::PrivateTeam,
        DomainFailure::AuthorRequired => CollaborationError::AuthorRequired,
        DomainFailure::CannotRelateSelf => CollaborationError::CannotRelateSelf,
        DomainFailure::RelationConflict => CollaborationError::RelationConflict,
        DomainFailure::IdentifierConflict => CollaborationError::RelationConflict,
        _ => CollaborationError::InvalidRequest,
    }
}

/// The answer of the Projects Admin contract to a storage refusal.
pub fn admin_error(failure: DomainFailure) -> (error: AdminError)
    ensures
        error == admin_answer(failure),
{
    match failure {
        DomainFailure::IdempotencyConflict => AdminError::IdempotencyConflict,
        DomainFailure::NotFound => AdminError::NotFound,
        DomainFailure::RevisionConflict => AdminError::RevisionConflict,
        DomainFailure::KeyConflict => AdminError::KeyConflict,
        DomainFailure::DefaultStateInvalid => AdminError::DefaultStateInvalid,
        DomainFailure::ActiveReference => AdminError::ActiveReference,
        _ => AdminError::InvalidRequest,
    }
}

/// Turns a storage result into a result of the Projects contract.
pub fn answer_project<T>(result: Result<T, StorageError>) -> (answer: Result<
    T,
    PluginError<ProjectsError>,
>)
    ensures
        answer == project_result(result),
{
    match result {
        Ok(value) => Ok(value),
        Err(StorageError::Domain(failure)) => Err(PluginError::Domain(project_error(failure))),
        Err(StorageError::Runtime(failure)) => Err(PluginError::Runtime(failure)),
    }
}

/// Turns a storage result into a result of the Projects Collaboration contract.
pub fn answer_collaboration<T>(result: Result<T, StorageError>) -> (answer: Result<
    T,
    PluginError<CollaborationError>,
>)
    ensures
        answer == collaboration_result(result),
{
    match result {
        Ok(value) => Ok(value),
        Err(StorageError::Domain(failure)) => Err(
            PluginError::Domain(collaboration_error(failure)),
        ),
        Err(StorageError::Runtime(failure)) => Err(PluginError::Runtime(failure)),
    }
}

/// Turns a storage result into a result of the Projects Admin contract.
pub fn answer_admin<T>(result: Result<T, StorageError>) -> (answer: Result<
    T,
    PluginError<AdminError>,
>)
    ensures
        answer == admin_result(result),
{
    match result {
        Ok(value) => Ok(value),
        Err(StorageError::Domain(failure)) => Err(PluginError::Domain(admin_error(failure))),
        Err(StorageError::Runtime(failure)) => Err(PluginError::Runtime(failure)),
    }
}

/// Turns a storage result into a result of a governance contract.
pub fn answer_governance<T>(result: Result<T, StorageError>) -> (answer: Result<
    T,
    PluginError<GovernanceError>,
>)
    ensures
        answer == governance_result(result),
{
    match result {
        Ok(value) => Ok(value),
        Err(StorageError::Domain(_)) => Err(PluginError::Domain(GovernanceError::InvalidRequest)),
        Err(StorageError::Runtime(failure)) => Err(PluginError::Runtime(failure)),
    }
}

} // verus!
