//! How the workspace answers the outcome of a dependency call: a Knowledge Base
//! Domain Error becomes an HTTP problem, an unknown one a protocol violation,
//! and a Runtime Failure crosses the endpoint unchanged.

use crate::laws::unknown_opening;
use crate::response::{problem, problem_view, ResponseView, WebResponse};
use crate::text::{has_prefix, same_text, snake, snake_case, starts_with};
use lenso_kernel::RuntimeFailure;
use vstd::prelude::*;

verus! {

/// A failure of the Lenso Runtime, carried through unchanged.
#[verifier::external_type_specification]
#[verifier::external_body]
pub struct ExRuntimeFailure(RuntimeFailure);

/// The Capabilities that the workspace depends on.
#[derive(Debug, Clone, Copy, PartialEq, Eq, Structural)]
pub enum Capability {
    Auth,
    KnowledgeBase,
}

/// Why a request ends as a Runtime Failure rather than an HTTP response.
#[derive(Debug)]
pub enum EndpointFailure {
    /// A dependency failed at runtime; its failure crosses the endpoint unchanged.
    Dependency(RuntimeFailure),
    /// A dependency answered with something its contract does not allow.
    ProtocolViolation(Capability),
    /// The workspace itself could not complete the request.
    Internal(String),
}

/// The Debug name of a Knowledge Base Domain Error variant that this
/// workspace does not know (generated clients render it as `Unknown(..)`).
pub open spec fn is_unknown_domain_error(variant: Seq<char>) -> bool {
    starts_with(variant, "Unknown("@)
}

/// The HTTP status of a known Domain Error, by its variant name.
pub open spec fn domain_status(variant: Seq<char>) -> u16 {
    if variant == "Unauthenticated"@ {
        401
    } else if variant == "Forbidden"@ {
        403
    } else if variant == "ArticleNotFound"@ {
        404
    } else if variant == "SlugConflict"@ || variant == "IdempotencyConflict"@ || variant
        == "RevisionConflict"@ {
        409
    } else {
        400
    }
}

/// The problem detail for a Domain Error code.
pub open spec fn rejection_detail(code: Seq<char>) -> Seq<char> {
    "The Knowledge Base capability rejected this operation ("@ + code + ")."@
}

/// The problem response for a known Domain Error: its status, its variant
/// name in `snake_case` as code, and a Bearer challenge on `401`.
pub open spec fn domain_problem_view(variant: Seq<char>) -> ResponseView {
    let status = domain_status(variant);
    let code = snake(variant);
    let base = problem_view(status, code, rejection_detail(code));
    if status == 401 {
        base.with_header("www-authenticate"@, "Bearer"@)
    } else {
        base
    }
}

/// `r` is the answer to the Domain Error whose Debug rendering is `variant`.
pub open spec fn answers_domain_error(
    variant: Seq<char>,
    r: Result<WebResponse, EndpointFailure>,
) -> bool {
    if is_unknown_domain_error(variant) {
        r == Err::<WebResponse, EndpointFailure>(
            EndpointFailure::ProtocolViolation(Capability::KnowledgeBase),
        )
    } else {
        r matches Ok(p) && p@ == domain_problem_view(variant)
    }
}

/// The HTTP status for a known Domain Error variant name.
pub fn status_for_variant(variant: &str) -> (r: u16)
    ensures
        r == domain_status(variant@),
{
    if same_text(variant, "Unauthenticated") {
        401
    } else if same_text(variant, "Forbidden") {
        403
    } else if same_text(variant, "ArticleNotFound") {
        404
    } else if same_text(variant, "SlugConflict") || same_text(variant, "IdempotencyConflict")
        || same_text(variant, "RevisionConflict") {
        409
    } else {
        400
    }
}

/// Answers a Knowledge Base Domain Error given by its Debug rendering: an
/// `Unknown(..)` error is a protocol violation of the Knowledge Base; every
/// other one is a problem response whose code is the variant in `snake_case`.
pub fn variant_problem(variant: &str) -> (r: Result<WebResponse, EndpointFailure>)
    ensures
        answers_domain_error(variant@, r),
        r is Err <==> (variant@.len() >= 8 && variant@.take(8) == unknown_opening()),
{
    proof {
        reveal_strlit("Unknown(");
        assert("Unknown("@ =~= unknown_opening());
    }
    if has_prefix(variant, "Unknown(") {
        return Err(EndpointFailure::ProtocolViolation(Capability::KnowledgeBase));
    }
    let code = snake_case(variant);
    let status = status_for_variant(variant);
    let detail = "The Knowledge Base capability rejected this operation (".to_owned().concat(
        code.as_str(),
    ).concat(").");
    let response = problem(status, code.as_str(), detail.as_str());
    if status == 401 {
        Ok(response.with_header("www-authenticate", "Bearer"))
    } else {
        Ok(response)
    }
}

/// Calls `format!("{:?}", ..)`: the Debug rendering of `value`. Nothing is
/// claimed of the text, which is whatever the value's `Debug` impl writes.
#[verifier::external_body]
fn debug_text<E: core::fmt::Debug>(value: &E) -> String {
    format!("{value:?}")
}

/// Answers a Knowledge Base Domain Error by its Debug rendering, as
/// [`variant_problem`] does for that rendering.
pub fn domain_problem<E: core::fmt::Debug>(error: &E) -> (r: Result<WebResponse, EndpointFailure>)
    ensures
        exists|variant: Seq<char>| #[trigger] answers_domain_error(variant, r),
{
    let variant = debug_text(error);
    let r = variant_problem(variant.as_str());
    assert(answers_domain_error(variant@, r));
    r
}

/// How a dependency call failed.
#[derive(Debug)]
pub enum DependencyError<E> {
    /// The provider rejected the operation with a Domain Error.
    Domain(E),
    /// The Runtime failed to complete the call.
    Runtime(RuntimeFailure),
}

/// What a handler answers after a dependency call.
#[derive(Debug)]
pub enum Reply<T> {
    /// The call succeeded: serialise `value` as JSON with `status`.
    Json { status: u16, value: T },
    /// The call was rejected: answer with this problem.
    Problem(WebResponse),
}

/// `r` answers a dependency call that was rejected with a Domain Error
/// rendered as `variant`.
pub open spec fn answers_rejection<T>(
    variant: Seq<char>,
    r: Result<Reply<T>, EndpointFailure>,
) -> bool {
    if is_unknown_domain_error(variant) {
        r == Err::<Reply<T>, EndpointFailure>(
            EndpointFailure::ProtocolViolation(Capability::KnowledgeBase),
        )
    } else {
        r matches Ok(Reply::Problem(p)) && p@ == domain_problem_view(variant)
    }
}

/// Turns the result of a Knowledge Base call into the handler's answer: a
/// success becomes a JSON reply with `status`, a Domain Error a problem (see
/// [`domain_problem`]), and a Runtime Failure crosses the endpoint unchanged.
pub fn json_result<T, E: core::fmt::Debug>(
    result: Result<T, DependencyError<E>>,
    status: u16,
) -> (r: Result<Reply<T>, EndpointFailure>)
    ensures
        result matches Ok(value) ==> r == Ok::<Reply<T>, EndpointFailure>(
            Reply::Json { status, value },
        ),
        result matches Err(DependencyError::Runtime(failure)) ==> r == Err::<
            Reply<T>,
            EndpointFailure,
        >(EndpointFailure::Dependency(failure)),
        result matches Err(DependencyError::Domain(_)) ==> exists|variant: Seq<char>|
            #[trigger] answers_rejection(variant, r),
{
    match result {
        Ok(value) => Ok(Reply::Json { status, value }),
        Err(DependencyError::Runtime(failure)) => Err(EndpointFailure::Dependency(failure)),
        Err(DependencyError::Domain(error)) => {
            let variant = debug_text(&error);
            let answer = variant_problem(variant.as_str());
            let r = match answer {
                Ok(response) => Ok(Reply::Problem(response)),
                Err(failure) => Err(failure),
            };
            assert(answers_rejection(variant@, r));
            r
        },
    }
}

} // verus!
