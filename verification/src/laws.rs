//! Laws that hold across the workspace's answers.

use crate::author::{
    assertion_actor_kind, attached, authenticates, decoded_auth, screens, AuthCheck, AuthReply,
    DecodedAuth, Rejection,
};
use lenso_kernel::InvocationContext;
use crate::domain::{
    answers_domain_error, domain_problem_view, domain_status, is_unknown_domain_error,
    rejection_detail, Capability, EndpointFailure,
};
use crate::response::{
    asset_view, authentication_problem_view, path_mismatch_view, problem_document, unsupported_actor_view,
    WebResponse,
};
use crate::text::snake;
use vstd::prelude::*;

verus! {

/// Law: every `401` that the workspace answers challenges the client with
/// `WWW-Authenticate: Bearer`, whether it comes from authentication or from a
/// Knowledge Base `Unauthenticated` error.
pub proof fn lemma_unauthorized_answers_challenge_bearer(variant: Seq<char>)
    ensures
        authentication_problem_view().status == 401,
        authentication_problem_view().has_header("www-authenticate"@, "Bearer"@),
        domain_problem_view(variant).status == 401 ==> domain_problem_view(variant).has_header(
            "www-authenticate"@,
            "Bearer"@,
        ),
{
    let a = authentication_problem_view();
    assert(a.headers[a.headers.len() - 1] == ("www-authenticate"@, "Bearer"@));
    let d = domain_problem_view(variant);
    if d.status == 401 {
        assert(d.headers[d.headers.len() - 1] == ("www-authenticate"@, "Bearer"@));
    }
}

/// Law: a known Domain Error is answered with one of the statuses the
/// workspace documents: `401` unauthenticated, `403` forbidden, `404` absent
/// article, `409` conflict, and `400` for any other rejection.
pub proof fn lemma_domain_status_is_documented(variant: Seq<char>)
    ensures
        domain_status(variant) == 400 || domain_status(variant) == 401 || domain_status(variant)
            == 403 || domain_status(variant) == 404 || domain_status(variant) == 409,
        domain_status(variant) == 409 <==> (variant == "SlugConflict"@ || variant
            == "IdempotencyConflict"@ || variant == "RevisionConflict"@),
{
    reveal_strlit("Unauthenticated");
    reveal_strlit("Forbidden");
    reveal_strlit("ArticleNotFound");
    reveal_strlit("SlugConflict");
    reveal_strlit("IdempotencyConflict");
    reveal_strlit("RevisionConflict");
    assert("Unauthenticated"@.len() == 15);
    assert("Forbidden"@.len() == 9);
    assert("ArticleNotFound"@.len() == 15);
    assert("SlugConflict"@.len() == 12);
    assert("IdempotencyConflict"@.len() == 19);
    assert("RevisionConflict"@.len() == 16);
}

/// Law: a Knowledge Base Domain Error ends as an HTTP response exactly when the
/// workspace knows it; an unknown one is a protocol violation, never a response.
pub proof fn lemma_unknown_domain_error_is_protocol_violation(
    variant: Seq<char>,
    r: Result<WebResponse, EndpointFailure>,
)
    requires
        answers_domain_error(variant, r),
    ensures
        r is Ok <==> !is_unknown_domain_error(variant),
{
}

/// Law: the workspace lets a request through to its handler only for an
/// authenticated actor of kind `user`; whatever else Auth answers, the request
/// ends before any Knowledge Base call.
pub proof fn lemma_only_users_pass(check: AuthCheck, r: Result<(), Rejection>)
    requires
        screens(check, r),
    ensures
        r is Ok <==> (check matches AuthCheck::Authenticated(kind) && kind@ == "user"@),
{
}

/// Law: a request reaches its handler exactly when Auth answered with an
/// assertion of a `user` actor that could be attached to the request's
/// context, and it then runs with that attached context, which carries the
/// author's assertion on to the Knowledge Base.
pub proof fn lemma_admitted_requests_carry_the_author(
    reply: AuthReply,
    context: InvocationContext,
    r: Result<InvocationContext, Rejection>,
)
    requires
        authenticates(reply, context, r),
    ensures
        r is Ok <==> (reply matches AuthReply::Answered(response) && (decoded_auth(
            response,
        ) matches DecodedAuth::Authenticated(assertion) && assertion_actor_kind(assertion)
            == "user"@ && attached(assertion, context) is Ok)),
        r is Ok ==> (reply matches AuthReply::Answered(response) && (decoded_auth(
            response,
        ) matches DecodedAuth::Authenticated(assertion) && attached(assertion, context)
            == Ok::<InvocationContext, Seq<char>>(r->Ok_0))),
{
}

/// Law: the workspace's own rejections are distinct answers: authentication,
/// actor kind and article path are told apart by their status codes.
pub proof fn lemma_rejections_are_distinct()
    ensures
        authentication_problem_view().status == 401,
        unsupported_actor_view().status == 403,
        path_mismatch_view().status == 400,
{
}

/// The eight characters `Unknown(` that open the rendering of an unknown
/// Domain Error.
pub open spec fn unknown_opening() -> Seq<char> {
    seq!['U', 'n', 'k', 'n', 'o', 'w', 'n', '(']
}

/// Law: the `snake_case` codes of the documented Domain Errors.
pub proof fn lemma_documented_codes()
    ensures
        snake("Unauthenticated"@) == "unauthenticated"@,
        snake("Forbidden"@) == "forbidden"@,
        snake("ArticleNotFound"@) == "article_not_found"@,
        snake("SlugConflict"@) == "slug_conflict"@,
        snake("IdempotencyConflict"@) == "idempotency_conflict"@,
        snake("RevisionConflict"@) == "revision_conflict"@,
        snake("InvalidRequest"@) == "invalid_request"@,
{
    reveal_strlit("Unauthenticated");
    reveal_strlit("unauthenticated");
    reveal_strlit("Forbidden");
    reveal_strlit("forbidden");
    reveal_strlit("ArticleNotFound");
    reveal_strlit("article_not_found");
    reveal_strlit("SlugConflict");
    reveal_strlit("slug_conflict");
    reveal_strlit("IdempotencyConflict");
    reveal_strlit("idempotency_conflict");
    reveal_strlit("RevisionConflict");
    reveal_strlit("revision_conflict");
    reveal_strlit("InvalidRequest");
    reveal_strlit("invalid_request");
    reveal_with_fuel(snake, 20);
    assert(snake("Unauthenticated"@) =~= "unauthenticated"@);
    assert(snake("Forbidden"@) =~= "forbidden"@);
    assert(snake("ArticleNotFound"@) =~= "article_not_found"@);
    assert(snake("SlugConflict"@) =~= "slug_conflict"@);
    assert(snake("IdempotencyConflict"@) =~= "idempotency_conflict"@);
    assert(snake("RevisionConflict"@) =~= "revision_conflict"@);
    assert(snake("InvalidRequest"@) =~= "invalid_request"@);
}

/// `r` is a problem response with this status, code and detail.
pub open spec fn is_problem(
    r: Result<WebResponse, EndpointFailure>,
    status: u16,
    code: Seq<char>,
    detail: Seq<char>,
) -> bool {
    &&& r is Ok
    &&& r->Ok_0@.status == status
    &&& r->Ok_0@.headers[0] == ("content-type"@, "application/problem+json; charset=utf-8"@)
    &&& r->Ok_0@.body == problem_document(status, code, detail)
}

/// Law: a Knowledge Base Domain Error is a protocol violation exactly when
/// its rendering opens with `Unknown(`; each documented error is answered
/// with its own status, `snake_case` code and detail, and exactly the `401`
/// answers carry the Bearer challenge.
pub proof fn lemma_domain_error_answers(variant: Seq<char>, r: Result<WebResponse, EndpointFailure>)
    requires
        answers_domain_error(variant, r),
    ensures
        r is Err <==> (variant.len() >= 8 && variant.take(8) == unknown_opening()),
        r is Err ==> r == Err::<WebResponse, EndpointFailure>(
            EndpointFailure::ProtocolViolation(Capability::KnowledgeBase),
        ),
        r is Ok ==> (r->Ok_0@.status == 401 <==> r->Ok_0@.has_header(
            "www-authenticate"@,
            "Bearer"@,
        )),
        variant == "Unauthenticated"@ ==> is_problem(
            r,
            401,
            "unauthenticated"@,
            "The Knowledge Base capability rejected this operation (unauthenticated)."@,
        ),
        variant == "Forbidden"@ ==> is_problem(
            r,
            403,
            "forbidden"@,
            "The Knowledge Base capability rejected this operation (forbidden)."@,
        ),
        variant == "ArticleNotFound"@ ==> is_problem(
            r,
            404,
            "article_not_found"@,
            "The Knowledge Base capability rejected this operation (article_not_found)."@,
        ),
        variant == "SlugConflict"@ ==> is_problem(
            r,
            409,
            "slug_conflict"@,
            "The Knowledge Base capability rejected this operation (slug_conflict)."@,
        ),
        variant == "IdempotencyConflict"@ ==> is_problem(
            r,
            409,
            "idempotency_conflict"@,
            "The Knowledge Base capability rejected this operation (idempotency_conflict)."@,
        ),
        variant == "RevisionConflict"@ ==> is_problem(
            r,
            409,
            "revision_conflict"@,
            "The Knowledge Base capability rejected this operation (revision_conflict)."@,
        ),
        variant == "InvalidRequest"@ ==> is_problem(
            r,
            400,
            "invalid_request"@,
            "The Knowledge Base capability rejected this operation (invalid_request)."@,
        ),
{
    reveal_strlit("Unauthenticated");
    reveal_strlit("Forbidden");
    reveal_strlit("ArticleNotFound");
    reveal_strlit("SlugConflict");
    reveal_strlit("IdempotencyConflict");
    reveal_strlit("RevisionConflict");
    reveal_strlit("InvalidRequest");
    reveal_strlit("Unknown(");
    reveal_strlit("content-type");
    reveal_strlit("www-authenticate");
    reveal_strlit("Bearer");
    reveal_strlit("application/problem+json; charset=utf-8");
    reveal_strlit("The Knowledge Base capability rejected this operation (");
    reveal_strlit(").");
    reveal_strlit("unauthenticated");
    reveal_strlit("forbidden");
    reveal_strlit("article_not_found");
    reveal_strlit("slug_conflict");
    reveal_strlit("idempotency_conflict");
    reveal_strlit("revision_conflict");
    reveal_strlit("invalid_request");
    reveal_strlit("The Knowledge Base capability rejected this operation (unauthenticated).");
    reveal_strlit("The Knowledge Base capability rejected this operation (forbidden).");
    reveal_strlit("The Knowledge Base capability rejected this operation (article_not_found).");
    reveal_strlit("The Knowledge Base capability rejected this operation (slug_conflict).");
    reveal_strlit("The Knowledge Base capability rejected this operation (idempotency_conflict).");
    reveal_strlit("The Knowledge Base capability rejected this operation (revision_conflict).");
    reveal_strlit("The Knowledge Base capability rejected this operation (invalid_request).");
    lemma_domain_status_is_documented(variant);
    lemma_documented_codes();
    assert("Unknown("@ =~= unknown_opening());
    assert(!is_unknown_domain_error("Unauthenticated"@)) by {
        assert("Unauthenticated"@.take(8)[2] != "Unknown("@[2]);
    }
    assert(!is_unknown_domain_error("Forbidden"@)) by {
        assert("Forbidden"@.take(8)[0] != "Unknown("@[0]);
    }
    assert(!is_unknown_domain_error("ArticleNotFound"@)) by {
        assert("ArticleNotFound"@.take(8)[0] != "Unknown("@[0]);
    }
    assert(!is_unknown_domain_error("SlugConflict"@)) by {
        assert("SlugConflict"@.take(8)[0] != "Unknown("@[0]);
    }
    assert(!is_unknown_domain_error("IdempotencyConflict"@)) by {
        assert("IdempotencyConflict"@.take(8)[0] != "Unknown("@[0]);
    }
    assert(!is_unknown_domain_error("RevisionConflict"@)) by {
        assert("RevisionConflict"@.take(8)[0] != "Unknown("@[0]);
    }
    assert(!is_unknown_domain_error("InvalidRequest"@)) by {
        assert("InvalidRequest"@.take(8)[0] != "Unknown("@[0]);
    }
    let view = domain_problem_view(variant);
    assert(view.headers[0] == ("content-type"@, "application/problem+json; charset=utf-8"@));
    if r is Ok {
        let p = r->Ok_0@;
        assert(p.headers[0] == ("content-type"@, "application/problem+json; charset=utf-8"@));
        assert("content-type"@ != "www-authenticate"@) by {
            assert("content-type"@[0] != "www-authenticate"@[0]);
        }
        if p.status == 401 {
            assert(p.headers[1] == ("www-authenticate"@, "Bearer"@));
        } else {
            assert(p.headers =~= seq![("content-type"@, "application/problem+json; charset=utf-8"@)]);
            assert(!p.headers.contains(("www-authenticate"@, "Bearer"@))) by {
                if p.headers.contains(("www-authenticate"@, "Bearer"@)) {
                    let i = choose|i: int| 0 <= i < p.headers.len() && p.headers[i] == ("www-authenticate"@, "Bearer"@);
                    assert(i == 0);
                }
            }
        }
    }
    assert(rejection_detail("unauthenticated"@) =~= "The Knowledge Base capability rejected this operation (unauthenticated)."@);
    assert(rejection_detail("forbidden"@) =~= "The Knowledge Base capability rejected this operation (forbidden)."@);
    assert(rejection_detail("article_not_found"@) =~= "The Knowledge Base capability rejected this operation (article_not_found)."@);
    assert(rejection_detail("slug_conflict"@) =~= "The Knowledge Base capability rejected this operation (slug_conflict)."@);
    assert(rejection_detail("idempotency_conflict"@) =~= "The Knowledge Base capability rejected this operation (idempotency_conflict)."@);
    assert(rejection_detail("revision_conflict"@) =~= "The Knowledge Base capability rejected this operation (revision_conflict)."@);
    assert(rejection_detail("invalid_request"@) =~= "The Knowledge Base capability rejected this operation (invalid_request)."@);
}

/// Law: a served asset is answered with exactly the status it was served
/// with, exactly one `content-type` header naming its type, and the whole
/// embedded text, byte for byte, as body.
pub proof fn lemma_served_asset_is_whole(
    r: WebResponse,
    status: u16,
    content_type: Seq<char>,
    body: Seq<u8>,
)
    requires
        r@ == asset_view(status, content_type, body),
    ensures
        r@.status == status,
        r@.body == body,
        r@.body.len() == body.len(),
        r@.headers.len() == 1,
        r@.headers[0] == ("content-type"@, content_type),
{
}

} // verus!
