use lenso_auth_sdk::{
    audience, ActorAssertion, ActorAssertionIssuer, ActorProjectionError, FixedClock, TypedActor,
    Validity,
};
use lenso_kernel::{CancellationToken, InvocationContext};
use lenso_projects::descriptor::agent_web_descriptor;
use lenso_projects::failure::RuntimeFailure;
use lenso_projects::ingress::{Action, Credential, Event, Ingress, Phase, Route};
use lenso_projects::link;
use lenso_projects::tools::{rejected, ExecuteError};
use lenso_projects::web::{
    assertion_attached, body_received, catalog_answered, credential_selected, execution_answered,
    input_checked, problem, reply, session_checked, AuthReply, CatalogReply, ExecutionReply,
    HandleResponse, ToolInput, WebStep, MAX_REQUEST, MAX_RESPONSE,
};
use serde_json::Value;
use std::collections::BTreeMap;
use time::{Duration, OffsetDateTime};

const TOOLS_CAPABILITY: &str = "lenso.agent.tool-provider@2";

fn responded(step: WebStep) -> HandleResponse {
    let WebStep::Respond(response) = step else {
        panic!("expected a response, got {step:?}");
    };
    response
}

fn failed(step: WebStep) -> RuntimeFailure {
    let WebStep::Fail(failure) = step else {
        panic!("expected a failure, got {step:?}");
    };
    failure
}

fn input(name: &str, arguments: &str) -> Option<ToolInput> {
    Some(ToolInput { name: name.to_owned(), arguments_json: arguments.to_owned() })
}

#[derive(Debug)]
struct User;

impl TypedActor for User {
    fn from_assertion(assertion: &ActorAssertion) -> Result<Self, ActorProjectionError> {
        assert_eq!(assertion.subject(), "user-1");
        Ok(Self)
    }
}

/// The services behind the ingress: sessions, which can be revoked, and the tools.
struct Fixtures {
    issuer: ActorAssertionIssuer,
    revoked: bool,
    calls: usize,
}

impl Fixtures {
    /// Authenticates a session and attaches what it asserts to the context of the call.
    fn authenticate(
        &self,
        credential: &str,
        context: InvocationContext,
    ) -> (AuthReply, Option<InvocationContext>) {
        if self.revoked || credential == "bad" {
            return (AuthReply::Refused, None);
        }
        let kind = if credential == "service" { "service" } else { "user" };
        let now = OffsetDateTime::now_utc();
        let assertion = self.issuer.issue(
            "user-1",
            kind,
            "session",
            [
                audience(TOOLS_CAPABILITY, "execute"),
                audience(TOOLS_CAPABILITY, "catalog"),
            ],
            Validity::new(now - Duration::seconds(1), now + Duration::minutes(1)).unwrap(),
            BTreeMap::new(),
        );
        let reply = AuthReply::Authenticated { actor_kind: kind.to_owned() };
        (reply, assertion.attach(context).ok())
    }

    fn execute(&mut self, context: &InvocationContext, name: &str) -> ExecutionReply {
        self.issuer
            .verifier()
            .project_context::<User>(
                context,
                TOOLS_CAPABILITY,
                "execute",
                &FixedClock::new(OffsetDateTime::now_utc()),
            )
            .unwrap();
        assert!(!format!("{context:?}").contains("private-session-credential"));
        self.calls += 1;
        match name {
            "denied" => ExecutionReply::Refused {
                error: ExecuteError::PermissionDenied,
                body: "{}".to_owned(),
            },
            "missing" => ExecutionReply::Refused {
                error: ExecuteError::NotFound,
                body: "{}".to_owned(),
            },
            "runtime" => ExecutionReply::Failed(RuntimeFailure::Unavailable {
                capability: TOOLS_CAPABILITY.to_owned(),
            }),
            _ => ExecutionReply::Done { body: r#"{"content":"done"}"#.to_owned() },
        }
    }
}

/// Reads a body that holds exactly the two fields of a tool input.
fn decode(body: &str) -> Option<ToolInput> {
    let Value::Object(fields) = serde_json::from_str::<Value>(body).ok()? else {
        return None;
    };
    if fields.len() != 2 {
        return None;
    }
    Some(ToolInput {
        name: fields.get("name")?.as_str()?.to_owned(),
        arguments_json: fields.get("arguments_json")?.as_str()?.to_owned(),
    })
}

/// One request, taken through every action until it ends.
fn handle(fixtures: &mut Fixtures, route: Route, credential: Option<&str>, body: &str) -> WebStep {
    let credential = credential
        .map(|value| Credential { scheme: "session".to_owned(), value: value.to_owned() });
    let mut context = InvocationContext::new(1, None, CancellationToken::new());
    let mut attached = None;
    let (mut ingress, mut action) = Ingress::receive(route, &credential, body.len());
    loop {
        let event = match action {
            Action::Authenticate { credential } => {
                let (reply, given) = fixtures.authenticate(&credential.value, context.clone());
                attached = given;
                Event::Authenticated(reply)
            }
            Action::Attach => {
                let done = attached.is_some();
                context = attached.take().unwrap_or(context);
                Event::Attached(done)
            }
            Action::Decode => Event::Decoded(decode(body)),
            Action::AskCatalog => {
                Event::Listed(CatalogReply::Catalog { body: r#"{"tools":[]}"#.to_owned() })
            }
            Action::Execute { name, arguments_json } => {
                assert_eq!(arguments_json, "{}");
                Event::Executed(fixtures.execute(&context, &name))
            }
            Action::Respond(response) => return WebStep::Respond(response),
            Action::Fail(failure) => return WebStep::Fail(failure),
        };
        (ingress, action) = ingress.advance(event);
    }
}

fn execute(fixtures: &mut Fixtures, credential: Option<&str>, body: &str) -> WebStep {
    handle(fixtures, Route::Execute, credential, body)
}

#[test]
fn ingress_authenticates_each_call_and_preserves_failure_boundaries() {
    link();
    let mut fixture = Fixtures {
        issuer: ActorAssertionIssuer::new("test.auth", b"test-ingress-signing"),
        revoked: false,
        calls: 0,
    };
    let descriptions = responded(handle(&mut fixture, Route::Manifest, None, ""));
    assert_eq!(descriptions.status, 200);
    assert_eq!(descriptions.body, r#"{"tools":[]}"#);
    let body = r#"{"name":"read","arguments_json":"{}"}"#;
    for (credential, body, status) in [
        (None, body, 401),
        (Some("bad"), body, 401),
        (Some("service"), body, 403),
        (
            Some("private-session-credential"),
            r#"{"name":"read","arguments_json":"{}","subject":"admin"}"#,
            400,
        ),
    ] {
        assert_eq!(responded(execute(&mut fixture, credential, body)).status, status);
    }
    assert_eq!(fixture.calls, 0);
    for (name, status) in [("read", 200), ("denied", 403), ("missing", 404)] {
        let body = format!("{{\"name\":\"{name}\",\"arguments_json\":\"{{}}\"}}");
        let response =
            responded(execute(&mut fixture, Some("private-session-credential"), &body));
        assert_eq!(response.status, status);
        assert!(response
            .headers
            .iter()
            .any(|h| h.name == "cache-control" && h.value == "no-store"));
        assert!(!response.body.contains("private-session-credential"));
    }
    let runtime = r#"{"name":"runtime","arguments_json":"{}"}"#;
    failed(execute(&mut fixture, Some("private-session-credential"), runtime));
    fixture.revoked = true;
    let response = responded(execute(&mut fixture, Some("private-session-credential"), body));
    assert_eq!(response.status, 401);
    assert_eq!(fixture.calls, 4);
}

#[test]
fn only_session_credentials_are_accepted() {
    assert_eq!(credential_selected(&Some("session".to_owned())), WebStep::Continue);
    for scheme in [None, Some("bearer".to_owned())] {
        let response = responded(credential_selected(&scheme));
        assert_eq!(response.status, 401);
        assert_eq!(response.body, r#"{"error":"authentication_required"}"#);
    }
}

#[test]
fn each_answer_of_auth_has_its_reply() {
    let user = AuthReply::Authenticated { actor_kind: "user".to_owned() };
    assert_eq!(session_checked(user), WebStep::Continue);
    let service = AuthReply::Authenticated { actor_kind: "service".to_owned() };
    assert_eq!(responded(session_checked(service)).status, 403);
    assert_eq!(
        responded(session_checked(AuthReply::Refused)).body,
        r#"{"error":"invalid_session"}"#
    );
    assert_eq!(responded(session_checked(AuthReply::Anonymous)).status, 401);
    let violation = RuntimeFailure::ProtocolViolation { capability: "lenso.auth@1".to_owned() };
    assert_eq!(failed(session_checked(AuthReply::Undecodable)), violation);
    assert_eq!(failed(assertion_attached(false)), violation);
    assert_eq!(assertion_attached(true), WebStep::Continue);
    let down = RuntimeFailure::AdmissionClosed;
    assert_eq!(failed(session_checked(AuthReply::Failed(down.clone()))), down);
}

/// What the ingress does with a decoded body.
fn decoded(input: Option<ToolInput>) -> Action {
    let waiting =
        Ingress { route: Route::Execute, body_length: 2, phase: Phase::Decoding };
    waiting.advance(Event::Decoded(input)).1
}

fn response_of(action: Action) -> HandleResponse {
    let Action::Respond(response) = action else {
        panic!("expected a response");
    };
    response
}

#[test]
fn bodies_are_bounded_and_checked() {
    assert_eq!(body_received(MAX_REQUEST), WebStep::Continue);
    assert_eq!(responded(body_received(MAX_REQUEST + 1)).status, 413);
    let accepted = decoded(input("read", "{}"));
    assert!(matches!(
        accepted,
        Action::Execute { name, arguments_json } if name == "read" && arguments_json == "{}"
    ));
    assert_eq!(response_of(decoded(None)).body, r#"{"error":"invalid_request"}"#);
    for invalid in [
        input("", "{}"),
        input(&"x".repeat(129), "{}"),
        input("read", &format!("\"{}\"", "x".repeat(262_143))),
        input("read", "{"),
        input("read", ""),
    ] {
        let response = response_of(decoded(invalid));
        assert_eq!(response.status, 400);
        assert_eq!(response.body, r#"{"error":"invalid_arguments"}"#);
    }
    assert!(matches!(decoded(input(&"x".repeat(128), "[1]")), Action::Execute { .. }));
    assert_eq!(responded(input_checked(&input("read", "{}"), false)).status, 400);
    let waiting =
        Ingress { route: Route::Execute, body_length: 2, phase: Phase::Decoding };
    assert!(matches!(waiting.input_read(input("read", "{"), true).1, Action::Execute { .. }));
    assert_eq!(response_of(waiting.input_read(input("read", "{}"), false).1).status, 400);
}

#[test]
fn requests_take_their_actions_in_order() {
    let session =
        Some(Credential { scheme: "session".to_owned(), value: "credential".to_owned() });
    let user = AuthReply::Authenticated { actor_kind: "user".to_owned() };
    let (begun, first) = Ingress::receive(Route::Execute, &session, 10);
    assert!(matches!(
        first,
        Action::Authenticate { credential } if credential.value == "credential"
    ));
    let (attaching, action) = begun.advance(Event::Authenticated(user.clone()));
    assert!(matches!(action, Action::Attach));
    let (decoding, action) = attaching.advance(Event::Attached(true));
    assert!(matches!(action, Action::Decode));
    let (executing, action) = decoding.advance(Event::Decoded(input("read", "{}")));
    assert!(matches!(action, Action::Execute { .. }));
    let done = ExecutionReply::Done { body: "{}".to_owned() };
    let (ended, action) = executing.advance(Event::Executed(done.clone()));
    assert_eq!(response_of(action).status, 200);
    assert_eq!(ended.phase, Phase::Ended);
    for early in [begun, attaching, decoding, ended] {
        let (state, action) = early.advance(Event::Executed(done.clone()));
        assert!(matches!(action, Action::Fail(RuntimeFailure::Internal { .. })));
        assert_eq!(state.phase, Phase::Ended);
    }
    let (state, action) = begun.advance(Event::Authenticated(AuthReply::Refused));
    assert_eq!(response_of(action).body, r#"{"error":"invalid_session"}"#);
    assert_eq!(state.phase, Phase::Ended);
    let (state, action) = attaching.advance(Event::Attached(false));
    assert!(matches!(action, Action::Fail(RuntimeFailure::ProtocolViolation { .. })));
    assert_eq!(state.phase, Phase::Ended);
    let (large, _) = Ingress::receive(Route::Execute, &session, MAX_REQUEST + 1);
    let (large, _) = large.advance(Event::Authenticated(user.clone()));
    assert_eq!(response_of(large.advance(Event::Attached(true)).1).status, 413);
    let (listing, _) = Ingress::receive(Route::Catalog, &session, MAX_REQUEST + 1);
    let (listing, _) = listing.advance(Event::Authenticated(user));
    let (listing, action) = listing.advance(Event::Attached(true));
    assert!(matches!(action, Action::AskCatalog));
    let (_, action) = listing.advance(Event::Listed(CatalogReply::Refused));
    assert_eq!(response_of(action).status, 503);
    let bearer =
        Some(Credential { scheme: "bearer".to_owned(), value: "credential".to_owned() });
    for (route, credential) in [(Route::Catalog, None), (Route::Execute, bearer)] {
        let (state, action) = Ingress::receive(route, &credential, 0);
        assert_eq!(response_of(action).status, 401);
        assert_eq!(state.phase, Phase::Ended);
    }
    assert!(matches!(Ingress::receive(Route::Manifest, &None, 0).1, Action::AskCatalog));
}

#[test]
fn catalogs_are_described_to_users() {
    let mut fixture = Fixtures {
        issuer: ActorAssertionIssuer::new("test.auth", b"test-ingress-signing"),
        revoked: false,
        calls: 0,
    };
    for (credential, status) in [(None, 401), (Some("bad"), 401), (Some("service"), 403)] {
        let step = handle(&mut fixture, Route::Catalog, credential, "");
        assert_eq!(responded(step).status, status);
    }
    let step = handle(&mut fixture, Route::Catalog, Some("private-session-credential"), "");
    assert_eq!(responded(step).body, r#"{"tools":[]}"#);
    fixture.revoked = true;
    let step = handle(&mut fixture, Route::Catalog, Some("private-session-credential"), "");
    assert_eq!(responded(step).status, 401);
}

#[test]
fn executions_keep_their_failure_boundaries() {
    let body = "{}".to_owned();
    assert_eq!(
        responded(execution_answered(ExecutionReply::Done { body: body.clone() })).status,
        200
    );
    for (error, status) in [
        (ExecuteError::InvalidArguments, 400),
        (ExecuteError::PermissionDenied, 403),
        (ExecuteError::NotFound, 404),
        (ExecuteError::OutputLimitExceeded, 413),
        (rejected("revision_conflict"), 422),
    ] {
        let answer = ExecutionReply::Refused { error, body: body.clone() };
        assert_eq!(responded(execution_answered(answer)).status, status);
    }
    let violation = RuntimeFailure::ProtocolViolation {
        capability: "lenso.agent.tool-provider@2".to_owned(),
    };
    let unknown = ExecutionReply::Refused { error: ExecuteError::Unknown, body };
    assert_eq!(failed(execution_answered(unknown)), violation);
    assert_eq!(failed(execution_answered(ExecutionReply::Unwritable)), violation);
    assert_eq!(failed(catalog_answered(CatalogReply::Unwritable)), violation);
    let down = RuntimeFailure::Unavailable { capability: "lenso.agent.tool-provider@2".to_owned() };
    assert_eq!(failed(execution_answered(ExecutionReply::Failed(down.clone()))), down);
}

#[test]
fn catalogs_are_replied_or_reported_missing() {
    let catalog = CatalogReply::Catalog { body: r#"{"tools":[]}"#.to_owned() };
    let response = responded(catalog_answered(catalog));
    assert_eq!(response.status, 200);
    assert_eq!(response.body, r#"{"tools":[]}"#);
    let response = responded(catalog_answered(CatalogReply::Refused));
    assert_eq!(response.status, 503);
    assert_eq!(response.body, r#"{"error":"catalog_unavailable"}"#);
    let down = RuntimeFailure::AdmissionClosed;
    assert_eq!(failed(catalog_answered(CatalogReply::Failed(down.clone()))), down);
}

#[test]
fn replies_are_bounded_and_never_stored() {
    for response in [
        reply(200, "{}".to_owned()),
        problem(400, "invalid_request"),
        reply(200, "x".repeat(MAX_RESPONSE + 1)),
    ] {
        assert!(response.body.len() <= MAX_RESPONSE);
        let headers = response
            .headers
            .iter()
            .map(|header| (header.name.as_str(), header.value.as_str()))
            .collect::<Vec<_>>();
        assert_eq!(
            headers,
            vec![
                ("content-type", "application/json"),
                ("cache-control", "no-store"),
                ("x-content-type-options", "nosniff"),
            ]
        );
    }
    assert_eq!(reply(200, "x".repeat(MAX_RESPONSE)).status, 200);
    let large = reply(200, "x".repeat(MAX_RESPONSE + 1));
    assert_eq!(large.status, 413);
    assert_eq!(large.body, r#"{"error":"response_too_large"}"#);
    assert_eq!(problem(400, "a\"b\n").body, r#"{"error":"a\"b\n"}"#);
}

#[test]
fn the_web_adapter_requires_auth_and_tools() {
    link();
    let descriptor = agent_web_descriptor();
    assert_eq!(descriptor.plugin_id, "lenso.projects.agent-web");
    assert_eq!(descriptor.required, vec!["lenso.auth@1", "lenso.agent.tool-provider@2"]);
    assert_eq!(descriptor.provided, vec!["lenso.http.endpoint@1"]);
}
