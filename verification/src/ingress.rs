//! One HTTP request on its way: what is done next, and what becomes of each answer.
use crate::failure::RuntimeFailure;
use crate::web;
use crate::web::{
    assertion_attached, body_received, catalog_answered, credential_selected, execution_answered,
    input_checked, parses_json, session_checked, AuthReply, CatalogReply, ExecutionReply,
    HandleResponse, ToolInput, WebStep,
};
use vstd::prelude::*;

verus! {

/// What a request is for.
#[derive(Clone, Copy, Debug, PartialEq, Eq, Structural)]
pub enum Route {
    /// The tools, described to anyone.
    Manifest,
    /// The tools, described to an authenticated user.
    Catalog,
    /// The execution of a tool for an authenticated user.
    Execute,
}

/// The credential that the web server selected for a request.
#[derive(Clone, PartialEq, Eq)]
pub struct Credential {
    pub scheme: String,
    pub value: String,
}

/// Which answer a request waits for.
#[derive(Clone, Copy, Debug, PartialEq, Eq, Structural)]
pub enum Phase {
    Authenticating,
    Attaching,
    Decoding,
    Listing,
    Executing,
    Ended,
}

/// How far one request is. It holds no credential and no assertion.
#[derive(Clone, Copy, Debug, PartialEq, Eq, Structural)]
pub struct Ingress {
    pub route: Route,
    pub body_length: usize,
    pub phase: Phase,
}

/// What is done next for a request.
#[derive(Clone, PartialEq, Eq)]
pub enum Action {
    /// Ask the Auth port about the credential.
    Authenticate { credential: Credential },
    /// Attach the assertion that the Auth port just gave to the invocation.
    Attach,
    /// Read the tool input from the body.
    Decode,
    /// Ask the tool provider for its catalog.
    AskCatalog,
    /// Ask the tool provider to run a tool.
    Execute { name: String, arguments_json: String },
    /// Reply with this response.
    Respond(HandleResponse),
    /// The invocation fails.
    Fail(RuntimeFailure),
}

/// What came of an action.
#[derive(Clone, Debug, PartialEq, Eq)]
pub enum Event {
    Authenticated(AuthReply),
    Attached(bool),
    Decoded(Option<ToolInput>),
    Listed(CatalogReply),
    Executed(ExecutionReply),
}

/// What an action means for the request: it goes on, or it ends with this action.
pub open spec fn step_of(action: Action) -> WebStep {
    match action {
        Action::Respond(response) => WebStep::Respond(response),
        Action::Fail(failure) => WebStep::Fail(failure),
        _ => WebStep::Continue,
    }
}

/// Whether the tool provider is reached by the action.
pub open spec fn reaches_provider(action: Action) -> bool {
    action is AskCatalog || action is Execute
}

/// The request in its next phase, or ended where the action ends it.
pub open spec fn next(before: Ingress, action: Action, phase: Phase) -> Ingress {
    Ingress {
        phase: if step_of(action) == WebStep::Continue {
            phase
        } else {
            Phase::Ended
        },
        ..before
    }
}

/// Whether `failure` says that an answer came that nobody waited for.
pub open spec fn is_unexpected(failure: RuntimeFailure) -> bool {
    failure matches RuntimeFailure::Internal { detail } && detail@ == "unexpected ingress event"@
}

/// The scheme of a credential.
pub open spec fn scheme_of(credential: Option<Credential>) -> Option<Seq<char>> {
    match credential {
        Some(credential) => Some(credential.scheme@),
        None => None,
    }
}

/// Whether two credentials are the same.
pub open spec fn same_credential(a: Credential, b: Credential) -> bool {
    a.scheme@ == b.scheme@ && a.value@ == b.value@
}

/// How a request begins: the manifest is for anyone, everything else is for the session whose
/// credential the request carries.
pub open spec fn begins(
    route: Route,
    credential: Option<Credential>,
    body_length: usize,
    after: Ingress,
    action: Action,
) -> bool {
    let fresh = Ingress { route, body_length, phase: Phase::Listing };
    match route {
        Route::Manifest => action == Action::AskCatalog && after == fresh,
        _ => {
            &&& web::credential_leads(scheme_of(credential), step_of(action))
            &&& step_of(action) == WebStep::Continue ==> {
                &&& action matches Action::Authenticate { credential: asked }
                &&& same_credential(asked, credential->0)
            }
            &&& after == next(fresh, action, Phase::Authenticating)
        },
    }
}

/// What follows once the assertion is attached.
pub open spec fn admitted(before: Ingress, after: Ingress, action: Action) -> bool {
    match before.route {
        Route::Execute => {
            &&& web::body_leads(before.body_length as int, step_of(action))
            &&& step_of(action) == WebStep::Continue ==> action == Action::Decode
            &&& after == next(before, action, Phase::Decoding)
        },
        _ => action == Action::AskCatalog && after == next(before, action, Phase::Listing),
    }
}

/// What follows once the body was decoded, given whether the arguments are JSON.
pub open spec fn decoded(
    before: Ingress,
    input: Option<ToolInput>,
    is_json: bool,
    after: Ingress,
    action: Action,
) -> bool {
    &&& web::input_leads(input, is_json, step_of(action))
    &&& step_of(action) == WebStep::Continue ==> {
        &&& action matches Action::Execute { name, arguments_json }
        &&& name@ == input->0.name@
        &&& arguments_json@ == input->0.arguments_json@
    }
    &&& after == next(before, action, Phase::Executing)
}

/// What an event leads to. An event that the request does not wait for ends it with a failure.
pub open spec fn advances(before: Ingress, event: Event, after: Ingress, action: Action) -> bool {
    match (before.phase, event) {
        (Phase::Authenticating, Event::Authenticated(reply)) => {
            &&& web::session_leads(reply, step_of(action))
            &&& step_of(action) == WebStep::Continue ==> action == Action::Attach
            &&& after == next(before, action, Phase::Attaching)
        },
        (Phase::Attaching, Event::Attached(attached)) => if attached {
            admitted(before, after, action)
        } else {
            &&& web::attachment_leads(attached, step_of(action))
            &&& after == (Ingress { phase: Phase::Ended, ..before })
        },
        (Phase::Decoding, Event::Decoded(input)) => decoded(
            before,
            input,
            input is Some && web::is_json_text(input->0.arguments_json@),
            after,
            action,
        ),
        (Phase::Listing, Event::Listed(answer)) => {
            &&& web::catalog_leads(answer, step_of(action))
            &&& after == (Ingress { phase: Phase::Ended, ..before })
        },
        (Phase::Executing, Event::Executed(answer)) => {
            &&& web::execution_leads(answer, step_of(action))
            &&& after == (Ingress { phase: Phase::Ended, ..before })
        },
        _ => {
            &&& action matches Action::Fail(failure) && is_unexpected(failure)
            &&& after == (Ingress { phase: Phase::Ended, ..before })
        },
    }
}

impl Ingress {
    /// Takes the action in the phase, unless the step ends the request.
    fn proceed(self, step: WebStep, phase: Phase, action: Action) -> (moved: (Ingress, Action))
        requires
            step_of(action) == WebStep::Continue,
        ensures
            step_of(moved.1) == step,
            step == WebStep::Continue ==> moved.1 == action,
            moved.0 == next(self, moved.1, phase),
    {
        match step {
            WebStep::Continue => (
                Ingress { route: self.route, body_length: self.body_length, phase },
                action,
            ),
            step => self.end(step),
        }
    }

    /// Ends the request.
    fn end(self, step: WebStep) -> (moved: (Ingress, Action))
        requires
            step != WebStep::Continue,
        ensures
            step_of(moved.1) == step,
            moved.0 == (Ingress { phase: Phase::Ended, ..self }),
    {
        let ended = Ingress {
            route: self.route,
            body_length: self.body_length,
            phase: Phase::Ended,
        };
        match step {
            WebStep::Respond(response) => (ended, Action::Respond(response)),
            WebStep::Fail(failure) => (ended, Action::Fail(failure)),
            WebStep::Continue => (ended, Action::Attach),
        }
    }

    /// Begins a request.
    pub fn receive(route: Route, credential: &Option<Credential>, body_length: usize) -> (begun: (
        Ingress,
        Action,
    ))
        ensures
            begins(route, *credential, body_length, begun.0, begun.1),
    {
        let fresh = Ingress { route, body_length, phase: Phase::Listing };
        if route == Route::Manifest {
            return (fresh, Action::AskCatalog);
        }
        match credential {
            Some(credential) => {
                let scheme = Some(credential.scheme.clone());
                let asked = Credential {
                    scheme: credential.scheme.clone(),
                    value: credential.value.clone(),
                };
                fresh.proceed(
                    credential_selected(&scheme),
                    Phase::Authenticating,
                    Action::Authenticate { credential: asked },
                )
            },
            None => fresh.end(credential_selected(&None)),
        }
    }

    /// Continues once the body was decoded, given whether the arguments are JSON.
    pub fn input_read(self, input: Option<ToolInput>, is_json: bool) -> (moved: (Ingress, Action))
        ensures
            decoded(self, input, is_json, moved.0, moved.1),
    {
        let step = input_checked(&input, is_json);
        match input {
            Some(input) => self.proceed(
                step,
                Phase::Executing,
                Action::Execute { name: input.name, arguments_json: input.arguments_json },
            ),
            None => self.end(step),
        }
    }

    /// Continues once something came of the action that was asked for.
    pub fn advance(self, event: Event) -> (moved: (Ingress, Action))
        ensures
            advances(self, event, moved.0, moved.1),
    {
        match (self.phase, event) {
            (Phase::Authenticating, Event::Authenticated(reply)) => self.proceed(
                session_checked(reply),
                Phase::Attaching,
                Action::Attach,
            ),
            (Phase::Attaching, Event::Attached(attached)) => if !attached {
                self.end(assertion_attached(false))
            } else if self.route == Route::Execute {
                self.proceed(body_received(self.body_length), Phase::Decoding, Action::Decode)
            } else {
                self.proceed(WebStep::Continue, Phase::Listing, Action::AskCatalog)
            },
            (Phase::Decoding, Event::Decoded(input)) => {
                let is_json = match &input {
                    Some(input) => parses_json(input.arguments_json.as_str()),
                    None => false,
                };
                self.input_read(input, is_json)
            },
            (Phase::Listing, Event::Listed(answer)) => self.end(catalog_answered(answer)),
            (Phase::Executing, Event::Executed(answer)) => self.end(execution_answered(answer)),
            _ => self.end(
                WebStep::Fail(
                    RuntimeFailure::Internal { detail: "unexpected ingress event".to_owned() },
                ),
            ),
        }
    }
}

} // verus!
