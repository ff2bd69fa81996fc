//! Authentication of the author before any article route runs: the Auth
//! Capability's answer decides whether the request goes on, with the
//! caller's assertion attached, or ends here.

use crate::domain::{Capability, EndpointFailure};
use crate::response::{
    authentication_problem, authentication_problem_view, unsupported_actor,
    unsupported_actor_view, WebResponse,
};
use lenso_auth_sdk::{ActorAssertion, AuthOutcome};
use lenso_capability_auth::AuthenticateResponse;
use lenso_kernel::{InvocationContext, RuntimeFailure};
use vstd::prelude::*;

verus! {

/// An Auth response as the Auth Capability returned it.
#[verifier::external_type_specification]
#[verifier::external_body]
pub struct ExAuthenticateResponse(AuthenticateResponse);

/// A signed actor assertion issued by Auth.
#[verifier::external_type_specification]
#[verifier::external_body]
pub struct ExActorAssertion(ActorAssertion);

/// The context of the invocation that is being served.
#[verifier::external_type_specification]
#[verifier::external_body]
pub struct ExInvocationContext(InvocationContext);

/// How the call to the Auth Capability ended.
pub enum AuthReply {
    /// Auth answered.
    Answered(AuthenticateResponse),
    /// Auth rejected the credential with a Domain Error.
    Rejected,
    /// The Runtime failed to complete the call.
    Failed(RuntimeFailure),
}

/// An Auth answer decoded into its meaning.
pub enum DecodedAuth {
    /// The answer's kind and assertion disagree, or the assertion is invalid.
    Malformed,
    /// No credential was presented.
    Absent,
    /// An actor was authenticated.
    Authenticated(ActorAssertion),
}

/// What the decision about an author rests on, as plain values.
#[derive(Debug)]
pub enum AuthCheck {
    /// Auth rejected the credential.
    Rejected,
    /// The Auth call failed at runtime.
    Failed(RuntimeFailure),
    /// Auth answered something that its contract does not allow.
    Malformed,
    /// No credential was presented.
    Absent,
    /// An actor of this kind was authenticated.
    Authenticated(String),
}

/// Why a request does not reach its handler.
#[derive(Debug)]
pub enum Rejection {
    /// The request is answered with this response.
    Respond(WebResponse),
    /// The request ends in this failure.
    Fail(EndpointFailure),
}

/// The prefix of the detail of a failure to attach the author's assertion.
pub open spec fn attach_failure_prefix() -> Seq<char> {
    "could not attach authenticated author assertion: "@
}

/// `r` is the decision that `check` calls for.
pub open spec fn screens(check: AuthCheck, r: Result<(), Rejection>) -> bool {
    match check {
        AuthCheck::Rejected => r matches Err(Rejection::Respond(p)) && p@
            == authentication_problem_view(),
        AuthCheck::Failed(failure) => r == Err::<(), Rejection>(
            Rejection::Fail(EndpointFailure::Dependency(failure)),
        ),
        AuthCheck::Malformed => r == Err::<(), Rejection>(
            Rejection::Fail(EndpointFailure::ProtocolViolation(Capability::Auth)),
        ),
        AuthCheck::Absent => r matches Err(Rejection::Respond(p)) && p@
            == authentication_problem_view(),
        AuthCheck::Authenticated(kind) => if kind@ == "user"@ {
            r == Ok::<(), Rejection>(())
        } else {
            r matches Err(Rejection::Respond(p)) && p@ == unsupported_actor_view()
        },
    }
}

/// Decides whether an author may go on: only an authenticated `user` actor
/// does. A rejected or absent credential is answered `401`, another actor kind
/// `403`, a malformed Auth answer is a protocol violation of Auth, and a
/// runtime failure of the call crosses the endpoint unchanged.
pub fn screen_author(check: AuthCheck) -> (r: Result<(), Rejection>)
    ensures
        screens(check, r),
{
    match check {
        AuthCheck::Rejected => Err(Rejection::Respond(authentication_problem())),
        AuthCheck::Failed(failure) => Err(Rejection::Fail(EndpointFailure::Dependency(failure))),
        AuthCheck::Malformed => Err(
            Rejection::Fail(EndpointFailure::ProtocolViolation(Capability::Auth)),
        ),
        AuthCheck::Absent => Err(Rejection::Respond(authentication_problem())),
        AuthCheck::Authenticated(kind) => {
            if crate::text::same_text(kind.as_str(), "user") {
                Ok(())
            } else {
                Err(Rejection::Respond(unsupported_actor()))
            }
        },
    }
}

/// The failure when the author's assertion cannot be attached to the context.
pub fn attach_failure(message: &str) -> (r: EndpointFailure)
    ensures
        r matches EndpointFailure::Internal(detail) && detail@ == attach_failure_prefix()
            + message@,
{
    EndpointFailure::Internal(
        "could not attach authenticated author assertion: ".to_owned().concat(message),
    )
}

/// What `lenso_auth_sdk::decode_auth_response` makes of an Auth response.
pub uninterp spec fn decoded_auth(response: AuthenticateResponse) -> DecodedAuth;

/// The actor kind that an assertion names (`ActorAssertion::actor_kind`).
pub uninterp spec fn assertion_actor_kind(assertion: ActorAssertion) -> Seq<char>;

/// What `ActorAssertion::attach` makes of an assertion and a context: the
/// context with the assertion sealed in, or the Display text of its error.
pub uninterp spec fn attached(
    assertion: ActorAssertion,
    context: InvocationContext,
) -> Result<InvocationContext, Seq<char>>;

/// Calls `lenso_auth_sdk::decode_auth_response` and tells its outcomes apart:
/// an inconsistent or invalid answer is `Malformed`, otherwise the outcome is
/// moved over as it is. The claim: the result is the decoding of `response`,
/// which depends on the response alone.
#[verifier::external_body]
fn decode_reply(response: AuthenticateResponse) -> (r: DecodedAuth)
    ensures
        r == decoded_auth(response),
{
    match lenso_auth_sdk::decode_auth_response(response) {
        Ok(AuthOutcome::Absent) => DecodedAuth::Absent,
        Ok(AuthOutcome::Authenticated(assertion)) => DecodedAuth::Authenticated(assertion),
        Err(_) => DecodedAuth::Malformed,
    }
}

/// Calls `ActorAssertion::actor_kind`. The claim: the text is the actor kind
/// that the assertion names.
#[verifier::external_body]
fn actor_kind(assertion: &ActorAssertion) -> (r: String)
    ensures
        r@ == assertion_actor_kind(*assertion),
{
    assertion.actor_kind().to_owned()
}

/// Calls `ActorAssertion::attach`, which seals the assertion into the
/// invocation context; an error comes back as its Display text. The claim:
/// the result is what attaching this assertion to this context gives.
#[verifier::external_body]
fn attach(assertion: &ActorAssertion, context: InvocationContext) -> (r: Result<InvocationContext, String>)
    ensures
        r is Ok ==> attached(*assertion, context) is Ok && attached(*assertion, context)->Ok_0 == r->Ok_0,
        r is Err ==> attached(*assertion, context) is Err && attached(*assertion, context)->Err_0 == r->Err_0@,
{
    match assertion.attach(context) {
        Ok(context) => Ok(context),
        Err(error) => Err(error.to_string()),
    }
}

/// `r` is how a request with this Auth reply and this context goes on: only a
/// decoded assertion of a `user` actor is admitted, and the request then runs
/// with the context that the assertion was attached to.
pub open spec fn authenticates(
    reply: AuthReply,
    context: InvocationContext,
    r: Result<InvocationContext, Rejection>,
) -> bool {
    match reply {
        AuthReply::Rejected => r matches Err(Rejection::Respond(p)) && p@
            == authentication_problem_view(),
        AuthReply::Failed(failure) => r == Err::<InvocationContext, Rejection>(
            Rejection::Fail(EndpointFailure::Dependency(failure)),
        ),
        AuthReply::Answered(response) => match decoded_auth(response) {
            DecodedAuth::Malformed => r == Err::<InvocationContext, Rejection>(
                Rejection::Fail(EndpointFailure::ProtocolViolation(Capability::Auth)),
            ),
            DecodedAuth::Absent => r matches Err(Rejection::Respond(p)) && p@
                == authentication_problem_view(),
            DecodedAuth::Authenticated(assertion) => if assertion_actor_kind(assertion)
                == "user"@ {
                match attached(assertion, context) {
                    Ok(with_author) => r == Ok::<InvocationContext, Rejection>(with_author),
                    Err(message) => r matches Err(
                        Rejection::Fail(EndpointFailure::Internal(detail)),
                    ) && detail@ == attach_failure_prefix() + message,
                }
            } else {
                r matches Err(Rejection::Respond(p)) && p@ == unsupported_actor_view()
            },
        },
    }
}

/// Authenticates the author of a request from the Auth Capability's reply:
/// decodes it, admits only a `user` actor (see [`screen_author`]) and attaches
/// the author's assertion to the context that the handler runs with.
pub fn authenticate_author(reply: AuthReply, context: InvocationContext) -> (r: Result<
    InvocationContext,
    Rejection,
>)
    ensures
        authenticates(reply, context, r),
{
    let (check, assertion) = match reply {
        AuthReply::Rejected => (AuthCheck::Rejected, None),
        AuthReply::Failed(failure) => (AuthCheck::Failed(failure), None),
        AuthReply::Answered(response) => match decode_reply(response) {
            DecodedAuth::Malformed => (AuthCheck::Malformed, None),
            DecodedAuth::Absent => (AuthCheck::Absent, None),
            DecodedAuth::Authenticated(assertion) => {
                let kind = actor_kind(&assertion);
                (AuthCheck::Authenticated(kind), Some(assertion))
            },
        },
    };
    let ghost checked = check;
    match screen_author(check) {
        Err(rejection) => Err(rejection),
        Ok(()) => {
            match assertion {
                Some(assertion) => match attach(&assertion, context) {
                    Ok(context) => Ok(context),
                    Err(message) => Err(Rejection::Fail(attach_failure(message.as_str()))),
                },
                None => {
                    assert(!(checked is Authenticated));
                    vstd::pervasive::unreached()
                },
            }
        },
    }
}

} // verus!
