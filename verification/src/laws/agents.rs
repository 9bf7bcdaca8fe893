//! What agents are offered, what they are told, and what a web request comes to.
use crate::failure::{CollaborationError, PluginError, ProjectsError, RuntimeFailure};
use crate::ingress::{Action, Credential, Event, Ingress, Phase, Route};
use crate::json;
use crate::operations::Operation;
use crate::text;
use crate::tools;
use crate::tools::{ExecuteError, ExecuteResponse, Tool, ToolDefinition, ToolExecutionClass};
use crate::web;
use crate::web::{AuthReply, CatalogReply, ExecutionReply, HandleResponse};
use vstd::prelude::*;

verus! {

/// What an agent calls a tool, and the operation that the tool stands for.
pub open spec fn offered(tool: Tool, name: Seq<char>, operation: Operation) -> bool {
    match tool {
        Tool::ListProjects => name == "projects_list_projects"@ && operation
            == Operation::ListProjects,
        Tool::GetProject => name == "projects_get_project"@ && operation == Operation::GetProject,
        Tool::ListIssues => name == "projects_list_issues"@ && operation == Operation::ListIssues,
        Tool::GetIssue => name == "projects_get_issue"@ && operation == Operation::GetIssue,
        Tool::CreateIssue => name == "projects_create_issue"@ && operation
            == Operation::CreateIssue,
        Tool::UpdateIssue => name == "projects_update_issue"@ && operation
            == Operation::UpdateIssue,
        Tool::MoveIssue => name == "projects_move_issue"@ && operation == Operation::MoveIssue,
        Tool::ListComments => name == "projects_list_comments"@ && operation
            == Operation::ListComments,
        Tool::AddComment => name == "projects_add_comment"@ && operation == Operation::AddComment,
    }
}

/// Whether an operation only reads.
pub open spec fn only_reads(operation: Operation) -> bool {
    ||| operation is ListProjects
    ||| operation is GetProject
    ||| operation is ListIssues
    ||| operation is GetIssue
    ||| operation is ListComments
}

/// A tool is described under its own name, and runs beside others exactly where its operation only
/// reads.
pub proof fn law_tools_are_described(which: Tool, operation: Operation, definition: ToolDefinition)
    requires
        call_ensures(tools::tool, (which,), definition),
        call_ensures(Tool::operation, (which,), operation),
    ensures
        offered(which, definition.name@, operation),
        only_reads(operation) ==> definition.execution == ToolExecutionClass::ParallelSafe,
        !only_reads(operation) ==> definition.execution == ToolExecutionClass::Exclusive,
{
}

/// The name under which a tool stands.
pub open spec fn named(tool: Tool, name: Seq<char>) -> bool {
    exists|operation: Operation| #[trigger] offered(tool, name, operation)
}

/// A tool has the name under which it is offered, and no other.
proof fn lemma_named(tool: Tool, name: Seq<char>)
    ensures
        named(tool, name) <==> tools::tool_name(tool) == name,
{
    if tools::tool_name(tool) == name {
        assert(offered(tool, name, tools::tool_operation(tool)));
    }
}

/// A tool is found under its own name alone, and nothing is found under any other name.
pub proof fn law_tools_are_found_by_name(name: &str, found: Option<Tool>)
    requires
        call_ensures(tools::find_tool, (name,), found),
    ensures
        match found {
            Some(tool) => named(tool, name@),
            None => forall|tool: Tool| !#[trigger] named(tool, name@),
        },
{
    assert forall|tool: Tool| #[trigger] named(tool, name@) <==> tools::tool_name(tool)
        == name@ by {
        lemma_named(tool, name@);
    }
}

/// An execution is taken up for a tool that stands under the name, with arguments that fit; an unknown
/// name is not found whatever the arguments are.
pub proof fn law_executions_need_a_tool_and_its_arguments(
    name: &str,
    decodes: bool,
    result: Result<Tool, ExecuteError>,
)
    requires
        call_ensures(tools::admit_execution, (name, decodes), result),
    ensures
        (forall|tool: Tool| !#[trigger] named(tool, name@)) ==> result matches Err(
            ExecuteError::NotFound,
        ),
        (exists|tool: Tool| #[trigger] named(tool, name@)) ==> if decodes {
            result matches Ok(tool) && named(tool, name@)
        } else {
            result matches Err(ExecuteError::InvalidArguments)
        },
{
    assert forall|tool: Tool| #[trigger] named(tool, name@) <==> tools::tool_name(tool)
        == name@ by {
        lemma_named(tool, name@);
    }
    match result {
        Ok(tool) => {
            lemma_named(tool, name@);
        },
        Err(ExecuteError::InvalidArguments) => {
            let other = choose|other: Tool| tools::tool_name(other) == name@;
            lemma_named(other, name@);
        },
        _ => {},
    }
}

/// The catalog offers the nine tools, in this order.
pub proof fn law_catalog_offers_nine_tools(definitions: Vec<ToolDefinition>)
    requires
        call_ensures(tools::tool_definitions, (), definitions),
    ensures
        definitions@.len() == 9,
        definitions@[0].name@ == "projects_list_projects"@,
        definitions@[1].name@ == "projects_get_project"@,
        definitions@[2].name@ == "projects_list_issues"@,
        definitions@[3].name@ == "projects_get_issue"@,
        definitions@[4].name@ == "projects_create_issue"@,
        definitions@[5].name@ == "projects_update_issue"@,
        definitions@[6].name@ == "projects_move_issue"@,
        definitions@[7].name@ == "projects_list_comments"@,
        definitions@[8].name@ == "projects_add_comment"@,
        forall|i: int|
            0 <= i < 9 ==> ((#[trigger] definitions@[i]).execution
                == ToolExecutionClass::Exclusive <==> 4 <= i <= 6 || i == 8),
{
    assert(tools::is_definition(definitions@[0], tools::tool_order()[0]));
    assert(tools::is_definition(definitions@[1], tools::tool_order()[1]));
    assert(tools::is_definition(definitions@[2], tools::tool_order()[2]));
    assert(tools::is_definition(definitions@[3], tools::tool_order()[3]));
    assert(tools::is_definition(definitions@[4], tools::tool_order()[4]));
    assert(tools::is_definition(definitions@[5], tools::tool_order()[5]));
    assert(tools::is_definition(definitions@[6], tools::tool_order()[6]));
    assert(tools::is_definition(definitions@[7], tools::tool_order()[7]));
    assert(tools::is_definition(definitions@[8], tools::tool_order()[8]));
}

/// Whether an agent is told that the operation was rejected, and with what code.
pub open spec fn told_code(error: ExecuteError, code: Seq<char>) -> bool {
    &&& error matches ExecuteError::ExecutionFailed { payload }
    &&& payload.reason_code@ == code
    &&& payload.message@ == "Projects rejected the requested operation."@
    &&& payload.details_json@ == "{\"domain_error\":"@ + json::json_string(code) + "}"@
}

/// Whether a response holds the content unchanged and names the tool.
pub open spec fn holds_content(response: ExecuteResponse, tool: Tool, content: Seq<char>) -> bool {
    &&& response.content@ == content
    &&& exists|name: Seq<char>| #[trigger]
        named(tool, name) && response.metadata_json@ == "{\"tool\":"@ + json::json_string(name) + "}"@
}

/// What the Projects contract answers reaches the agent: the content as it is, a fault as it is, and a
/// refusal under its own name or as the denial that it is.
pub proof fn law_project_answers_reach_the_agent(
    tool: Tool,
    answer: Result<String, PluginError<ProjectsError>>,
    result: Result<ExecuteResponse, PluginError<ExecuteError>>,
)
    requires
        call_ensures(tools::finish_project_tool, (tool, answer), result),
    ensures
        match answer {
            Ok(content) => result matches Ok(response) && holds_content(response, tool, content@),
            Err(PluginError::Runtime(fault)) => result matches Err(PluginError::Runtime(said))
                && said == fault,
            Err(PluginError::Domain(error)) => {
                &&& result matches Err(PluginError::Domain(said))
                &&& match error {
                    ProjectsError::InvalidRequest => said is InvalidArguments,
                    ProjectsError::NotFound => said is NotFound,
                    ProjectsError::Forbidden => said is PermissionDenied,
                    ProjectsError::PrivateTeam => said is PermissionDenied,
                    ProjectsError::Unauthenticated => said is PermissionDenied,
                    ProjectsError::CycleNotFound => told_code(said, "cycle_not_found"@),
                    ProjectsError::IdempotencyConflict => told_code(said, "idempotency_conflict"@),
                    ProjectsError::IdentifierConflict => told_code(said, "identifier_conflict"@),
                    ProjectsError::LabelNotFound => told_code(said, "label_not_found"@),
                    ProjectsError::MilestoneNotFound => told_code(said, "milestone_not_found"@),
                    ProjectsError::ParentNotFound => told_code(said, "parent_not_found"@),
                    ProjectsError::ProjectStatusNotFound => told_code(
                        said,
                        "project_status_not_found"@,
                    ),
                    ProjectsError::RevisionConflict => told_code(said, "revision_conflict"@),
                    ProjectsError::TeamNotFound => told_code(said, "team_not_found"@),
                    ProjectsError::WorkflowStateNotFound => told_code(
                        said,
                        "workflow_state_not_found"@,
                    ),
                    ProjectsError::Unknown => told_code(said, "unknown_domain_error"@),
                }
            },
        },
{
    lemma_named(tool, tools::tool_name(tool));
}

/// What the Projects Collaboration contract answers reaches the agent: the content as it is, a fault as
/// it is, and a refusal under its own name or as the denial that it is.
pub proof fn law_collaboration_answers_reach_the_agent(
    tool: Tool,
    answer: Result<String, PluginError<CollaborationError>>,
    result: Result<ExecuteResponse, PluginError<ExecuteError>>,
)
    requires
        call_ensures(tools::finish_collaboration_tool, (tool, answer), result),
    ensures
        match answer {
            Ok(content) => result matches Ok(response) && holds_content(response, tool, content@),
            Err(PluginError::Runtime(fault)) => result matches Err(PluginError::Runtime(said))
                && said == fault,
            Err(PluginError::Domain(error)) => {
                &&& result matches Err(PluginError::Domain(said))
                &&& match error {
                    CollaborationError::InvalidRequest => said is InvalidArguments,
                    CollaborationError::NotFound => said is NotFound,
                    CollaborationError::AuthorRequired => said is PermissionDenied,
                    CollaborationError::Forbidden => said is PermissionDenied,
                    CollaborationError::PrivateTeam => said is PermissionDenied,
                    CollaborationError::Unauthenticated => said is PermissionDenied,
                    CollaborationError::CannotRelateSelf => told_code(said, "cannot_relate_self"@),
                    CollaborationError::IdempotencyConflict => told_code(
                        said,
                        "idempotency_conflict"@,
                    ),
                    CollaborationError::RelationConflict => told_code(said, "relation_conflict"@),
                    CollaborationError::RevisionConflict => told_code(said, "revision_conflict"@),
                    CollaborationError::Unknown => told_code(said, "unknown_domain_error"@),
                }
            },
        },
{
    lemma_named(tool, tools::tool_name(tool));
}

/// Whether a response is JSON with this status and body that nobody stores or sniffs.
pub open spec fn sends(response: HandleResponse, status: int, body: Seq<char>) -> bool {
    &&& response.status == status
    &&& response.body@ == body
    &&& response.headers@.len() == 3
    &&& response.headers@[0].name@ == "content-type"@
    &&& response.headers@[0].value@ == "application/json"@
    &&& response.headers@[1].name@ == "cache-control"@
    &&& response.headers@[1].value@ == "no-store"@
    &&& response.headers@[2].name@ == "x-content-type-options"@
    &&& response.headers@[2].value@ == "nosniff"@
}

/// Whether an action ends the request with this problem.
pub open spec fn objects(action: Action, status: int, code: Seq<char>) -> bool {
    action matches Action::Respond(response) && sends(
        response,
        status,
        "{\"error\":"@ + json::json_string(code) + "}"@,
    )
}

/// Whether an action ends the request with this body, unless it is over two mebibytes.
pub open spec fn sends_up_to_its_limit(action: Action, status: int, body: Seq<char>) -> bool {
    if text::byte_len(body) <= 2_097_152 {
        action matches Action::Respond(response) && sends(response, status, body)
    } else {
        objects(action, 413, "response_too_large"@)
    }
}

/// Whether an action ends the request since a port broke its contract.
pub open spec fn blames(action: Action, port: Seq<char>) -> bool {
    action matches Action::Fail(RuntimeFailure::ProtocolViolation { capability }) && capability@
        == port
}

/// Whether a request stays as it is but for its phase.
pub open spec fn moves_to(before: Ingress, after: Ingress, phase: Phase) -> bool {
    &&& after.route == before.route
    &&& after.body_length == before.body_length
    &&& after.phase == phase
}

/// The manifest is asked for at once; any other request is for whom carries a session credential, and
/// that credential is what the Auth port is asked about.
pub proof fn law_requests_begin(
    route: Route,
    credential: &Option<Credential>,
    body_length: usize,
    begun: (Ingress, Action),
)
    requires
        call_ensures(Ingress::receive, (route, credential, body_length), begun),
    ensures
        begun.0.route == route,
        begun.0.body_length == body_length,
        if route == Route::Manifest {
            begun.1 == Action::AskCatalog && begun.0.phase == Phase::Listing
        } else if *credential is Some && (*credential)->0.scheme@ == "session"@ {
            &&& begun.1 matches Action::Authenticate { credential: asked }
            &&& asked.scheme@ == (*credential)->0.scheme@
            &&& asked.value@ == (*credential)->0.value@
            &&& begun.0.phase == Phase::Authenticating
        } else {
            objects(begun.1, 401, "authentication_required"@) && begun.0.phase == Phase::Ended
        },
{
}

/// Where the answer of the Auth port is awaited, a user's assertion is attached, and whoever else
/// answers ends the request.
pub proof fn law_only_users_go_on(before: Ingress, reply: AuthReply, moved: (Ingress, Action))
    requires
        before.phase == Phase::Authenticating,
        call_ensures(Ingress::advance, (before, Event::Authenticated(reply)), moved),
    ensures
        match reply {
            AuthReply::Authenticated { actor_kind } => if actor_kind@ == "user"@ {
                moved.1 == Action::Attach && moves_to(before, moved.0, Phase::Attaching)
            } else {
                objects(moved.1, 403, "user_required"@) && moves_to(before, moved.0, Phase::Ended)
            },
            AuthReply::Anonymous => objects(moved.1, 401, "authentication_required"@) && moves_to(
                before,
                moved.0,
                Phase::Ended,
            ),
            AuthReply::Refused => objects(moved.1, 401, "invalid_session"@) && moves_to(
                before,
                moved.0,
                Phase::Ended,
            ),
            AuthReply::Undecodable => blames(moved.1, "lenso.auth@1"@) && moves_to(
                before,
                moved.0,
                Phase::Ended,
            ),
            AuthReply::Failed(fault) => moved.1 == Action::Fail(fault) && moves_to(
                before,
                moved.0,
                Phase::Ended,
            ),
        },
{
}

/// Once the assertion is attached an execution reads its body, of at most three hundred thousand bytes,
/// and every other request asks for the catalog.
pub proof fn law_attached_requests_go_on(before: Ingress, attached: bool, moved: (Ingress, Action))
    requires
        before.phase == Phase::Attaching,
        call_ensures(Ingress::advance, (before, Event::Attached(attached)), moved),
    ensures
        if !attached {
            blames(moved.1, "lenso.auth@1"@) && moves_to(before, moved.0, Phase::Ended)
        } else if before.route != Route::Execute {
            moved.1 == Action::AskCatalog && moves_to(before, moved.0, Phase::Listing)
        } else if before.body_length > 300_000 {
            objects(moved.1, 413, "request_too_large"@) && moves_to(before, moved.0, Phase::Ended)
        } else {
            moved.1 == Action::Decode && moves_to(before, moved.0, Phase::Decoding)
        },
{
}

/// A body that was read is executed as it reads: the tool's name takes up to 128 bytes and is not
/// empty, and the arguments are JSON of at most a quarter of a mebibyte.
pub proof fn law_read_input_is_executed(
    before: Ingress,
    input: Option<web::ToolInput>,
    moved: (Ingress, Action),
)
    requires
        before.phase == Phase::Decoding,
        call_ensures(Ingress::advance, (before, Event::Decoded(input)), moved),
    ensures
        if input is None {
            objects(moved.1, 400, "invalid_request"@) && moves_to(before, moved.0, Phase::Ended)
        } else if 1 <= text::byte_len(input->0.name@) <= 128 && text::byte_len(
            input->0.arguments_json@,
        ) <= 262_144 && web::is_json_text(input->0.arguments_json@) {
            &&& moved.1 matches Action::Execute { name, arguments_json }
            &&& name@ == input->0.name@
            &&& arguments_json@ == input->0.arguments_json@
            &&& moves_to(before, moved.0, Phase::Executing)
        } else {
            objects(moved.1, 400, "invalid_arguments"@) && moves_to(before, moved.0, Phase::Ended)
        },
{
}

/// The catalog that came is sent, and the request ends.
pub proof fn law_catalog_is_sent(before: Ingress, answer: CatalogReply, moved: (Ingress, Action))
    requires
        before.phase == Phase::Listing,
        call_ensures(Ingress::advance, (before, Event::Listed(answer)), moved),
    ensures
        moves_to(before, moved.0, Phase::Ended),
        match answer {
            CatalogReply::Catalog { body } => sends_up_to_its_limit(moved.1, 200, body@),
            CatalogReply::Unwritable => blames(moved.1, "lenso.agent.tool-provider@2"@),
            CatalogReply::Refused => objects(moved.1, 503, "catalog_unavailable"@),
            CatalogReply::Failed(fault) => moved.1 == Action::Fail(fault),
        },
{
}

/// The result that came is sent with the status of its kind, and the request ends.
pub proof fn law_result_is_sent(before: Ingress, answer: ExecutionReply, moved: (Ingress, Action))
    requires
        before.phase == Phase::Executing,
        call_ensures(Ingress::advance, (before, Event::Executed(answer)), moved),
    ensures
        moves_to(before, moved.0, Phase::Ended),
        match answer {
            ExecutionReply::Done { body } => sends_up_to_its_limit(moved.1, 200, body@),
            ExecutionReply::Unwritable => blames(moved.1, "lenso.agent.tool-provider@2"@),
            ExecutionReply::Failed(fault) => moved.1 == Action::Fail(fault),
            ExecutionReply::Refused { error, body } => match error {
                ExecuteError::InvalidArguments => sends_up_to_its_limit(moved.1, 400, body@),
                ExecuteError::PermissionDenied => sends_up_to_its_limit(moved.1, 403, body@),
                ExecuteError::NotFound => sends_up_to_its_limit(moved.1, 404, body@),
                ExecuteError::OutputLimitExceeded => sends_up_to_its_limit(moved.1, 413, body@),
                ExecuteError::ExecutionFailed { .. } => sends_up_to_its_limit(moved.1, 422, body@),
                ExecuteError::Unknown => blames(moved.1, "lenso.agent.tool-provider@2"@),
            },
        },
{
}

/// An answer that nobody waits for ends the request with a failure.
pub proof fn law_unawaited_answers_fail(before: Ingress, event: Event, moved: (Ingress, Action))
    requires
        call_ensures(Ingress::advance, (before, event), moved),
        !(before.phase == Phase::Authenticating && event is Authenticated),
        !(before.phase == Phase::Attaching && event is Attached),
        !(before.phase == Phase::Decoding && event is Decoded),
        !(before.phase == Phase::Listing && event is Listed),
        !(before.phase == Phase::Executing && event is Executed),
    ensures
        moves_to(before, moved.0, Phase::Ended),
        moved.1 matches Action::Fail(RuntimeFailure::Internal { .. }),
{
}

} // verus!
