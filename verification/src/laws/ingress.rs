//! Every web request is authenticated by itself, and only then reaches the tools.
use crate::ingress;
use crate::ingress::{Action, Credential, Event, Ingress, Phase, Route};
use crate::web;
use crate::web::{AuthReply, WebStep};
use vstd::prelude::*;

verus! {

/// One step of a request: what came of the last action, and what it led to.
pub struct Move {
    pub event: Event,
    pub after: Ingress,
    pub action: Action,
}

/// A request from its beginning on, through any answers in any order.
pub struct Run {
    pub route: Route,
    pub credential: Option<Credential>,
    pub body_length: usize,
    pub begun: Ingress,
    pub first: Action,
    pub moves: Seq<Move>,
}

impl Run {
    /// How far the request was before its k-th move.
    pub open spec fn before(self, k: int) -> Ingress {
        if k == 0 {
            self.begun
        } else {
            self.moves[k - 1].after
        }
    }

    /// Whether the k-th move is what the ingress makes of its event.
    pub open spec fn is_advanced(self, k: int) -> bool {
        ingress::advances(
            self.before(k),
            self.moves[k].event,
            self.moves[k].after,
            self.moves[k].action,
        )
    }

    /// Whether the request was begun and advanced as the ingress does.
    pub open spec fn is_handled(self) -> bool {
        &&& ingress::begins(
            self.route,
            self.credential,
            self.body_length,
            self.begun,
            self.first,
        )
        &&& forall|k: int| 0 <= k < self.moves.len() ==> #[trigger] self.is_advanced(k)
    }

    /// Whether the first answer is that of the Auth port, for a user, and the second that its
    /// assertion is attached.
    pub open spec fn is_authenticated(self) -> bool {
        &&& self.first is Authenticate
        &&& self.moves.len() >= 2
        &&& self.moves[0].event matches Event::Authenticated(
            AuthReply::Authenticated { actor_kind },
        ) && actor_kind@ == "user"@
        &&& self.moves[0].action == Action::Attach
        &&& self.moves[1].event == Event::Attached(true)
    }
}

/// The phase of a request tells which answers it got.
proof fn lemma_phase(run: Run, k: int)
    requires
        run.is_handled(),
        run.route != Route::Manifest,
        0 <= k <= run.moves.len(),
    ensures
        run.before(k).route == run.route,
        run.before(k).phase == Phase::Authenticating ==> k == 0,
        run.before(k).phase == Phase::Attaching ==> k == 1,
        run.before(k).phase == Phase::Decoding ==> k == 2 && run.is_authenticated(),
        run.before(k).phase == Phase::Listing ==> k == 2 && run.is_authenticated(),
        run.before(k).phase == Phase::Executing ==> k == 3 && run.is_authenticated(),
        run.before(k).phase == Phase::Attaching ==> {
            &&& run.first is Authenticate
            &&& run.moves[0].event matches Event::Authenticated(
                AuthReply::Authenticated { actor_kind },
            ) && actor_kind@ == "user"@
            &&& run.moves[0].action == Action::Attach
        },
        run.before(k).phase == Phase::Authenticating ==> run.first is Authenticate,
    decreases k,
{
    if k > 0 {
        lemma_phase(run, k - 1);
        assert(run.is_advanced(k - 1));
    }
}

/// A request for the catalog or for an execution starts with asking the Auth port about the session
/// credential that it carries itself, or is answered 401.
pub proof fn law_every_request_authenticates(run: Run)
    requires
        run.is_handled(),
        run.route != Route::Manifest,
    ensures
        match run.first {
            Action::Authenticate { credential } => {
                &&& run.credential is Some
                &&& ingress::same_credential(credential, run.credential->0)
                &&& credential.scheme@ == "session"@
            },
            action => web::responds(ingress::step_of(action), 401, "authentication_required"@),
        },
{
}

/// A tool is executed only after the Auth port answered this very request with a user's assertion,
/// the assertion was attached, the body was within its limit, and the input was accepted: and then
/// with that input.
pub proof fn law_execution_follows_authentication(run: Run, k: int)
    requires
        run.is_handled(),
        0 <= k < run.moves.len(),
        run.moves[k].action is Execute,
    ensures
        run.route == Route::Execute,
        k == 2,
        run.is_authenticated(),
        run.body_length <= web::MAX_REQUEST,
        run.moves[2].event matches Event::Decoded(Some(input)) && {
            &&& web::is_bounded_input(input)
            &&& web::is_json_text(input.arguments_json@)
            &&& run.moves[2].action matches Action::Execute { name, arguments_json } && name@
                == input.name@ && arguments_json@ == input.arguments_json@
        },
{
    assert(run.is_advanced(k));
    if run.route == Route::Manifest {
        lemma_manifest_phase(run, k);
    } else {
        lemma_phase(run, k);
        assert(run.is_advanced(0));
        assert(run.is_advanced(1));
    }
}

/// A request for the manifest waits for the catalog and nothing else.
proof fn lemma_manifest_phase(run: Run, k: int)
    requires
        run.is_handled(),
        run.route == Route::Manifest,
        0 <= k <= run.moves.len(),
    ensures
        run.before(k).phase == Phase::Listing || run.before(k).phase == Phase::Ended,
    decreases k,
{
    if k > 0 {
        lemma_manifest_phase(run, k - 1);
        assert(run.is_advanced(k - 1));
    }
}

/// No request executes a tool twice.
pub proof fn law_a_request_executes_once(run: Run, j: int, k: int)
    requires
        run.is_handled(),
        0 <= j < run.moves.len(),
        0 <= k < run.moves.len(),
        run.moves[j].action is Execute,
        run.moves[k].action is Execute,
    ensures
        j == k,
{
    law_execution_follows_authentication(run, j);
    law_execution_follows_authentication(run, k);
}

/// Whatever reaches the tool provider for a request that is not for the manifest does so for a user
/// whom the Auth port authenticated in this request.
pub proof fn law_provider_is_reached_for_users_only(run: Run, k: int)
    requires
        run.is_handled(),
        run.route != Route::Manifest,
        0 <= k < run.moves.len(),
        ingress::reaches_provider(run.moves[k].action),
    ensures
        run.is_authenticated(),
{
    lemma_phase(run, k);
    lemma_phase(run, k + 1);
    assert(run.is_advanced(k));
}

/// A request whose session the Auth port refuses is answered 401 and never reaches the tool provider,
/// whatever became of earlier requests with the same credential.
pub proof fn law_refused_session_reaches_no_tool(run: Run)
    requires
        run.is_handled(),
        run.route != Route::Manifest,
        run.first is Authenticate,
        run.moves.len() > 0,
        run.moves[0].event == Event::Authenticated(AuthReply::Refused),
    ensures
        web::responds(ingress::step_of(run.moves[0].action), 401, "invalid_session"@),
        run.moves[0].after.phase == Phase::Ended,
        !ingress::reaches_provider(run.first),
        forall|k: int|
            0 <= k < run.moves.len() ==> !ingress::reaches_provider(
                (#[trigger] run.moves[k]).action,
            ),
{
    assert(run.is_advanced(0));
    assert forall|k: int| 0 <= k < run.moves.len() implies !ingress::reaches_provider(
        (#[trigger] run.moves[k]).action,
    ) by {
        if ingress::reaches_provider(run.moves[k].action) {
            law_provider_is_reached_for_users_only(run, k);
        }
    }
}

/// The tools are described to anyone, without a question to the Auth port.
pub proof fn law_manifest_needs_no_session(run: Run)
    requires
        run.is_handled(),
        run.route == Route::Manifest,
    ensures
        run.first == Action::AskCatalog,
        forall|k: int|
            0 <= k < run.moves.len() ==> ingress::step_of((#[trigger] run.moves[k]).action)
                != WebStep::Continue,
{
    assert forall|k: int| 0 <= k < run.moves.len() implies ingress::step_of(
        (#[trigger] run.moves[k]).action,
    ) != WebStep::Continue by {
        lemma_manifest_phase(run, k);
        assert(run.is_advanced(k));
    }
}

} // verus!
