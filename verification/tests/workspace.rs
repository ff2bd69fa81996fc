use lenso_capability_auth::{
    AuthenticateResponse, AuthenticateResponseAssertion, AuthenticateResponseKind,
};
use lenso_capability_knowledge_base as knowledge_base;
use lenso_kernel::{CancellationToken, InvocationContext, RuntimeFailure};
use lenso_knowledge_author_web_plugin::{
    article_path_check, attach_failure, authenticate_author, authentication_problem, css,
    default_limit, domain_problem, javascript, json_result, page, path_mismatch, same_text,
    has_prefix, screen_author, snake_case, status_for_variant, unsupported_actor, variant_problem,
    AuthCheck, AuthReply, Capability, DependencyError, EndpointFailure, Rejection, Reply,
    WebResponse,
};
use serde_json::Value;

fn header(response: &WebResponse, name: &str) -> Option<String> {
    response
        .headers
        .iter()
        .find(|h| h.name == name)
        .map(|h| h.value.clone())
}

fn body_json(response: &WebResponse) -> Value {
    serde_json::from_slice(&response.body).unwrap()
}

fn context() -> InvocationContext {
    InvocationContext::new(7, None, CancellationToken::new())
}

fn wire_assertion(actor_kind: &str) -> AuthenticateResponseAssertion {
    AuthenticateResponseAssertion {
        actor_kind: actor_kind.to_owned(),
        assurance: "test".to_owned(),
        audience: vec!["lenso.knowledge-base@1:list_articles".to_owned()],
        claims: None,
        expires_at: "2027-01-15T08:01:00Z".to_owned(),
        issued_at: "2027-01-15T07:59:59Z".to_owned(),
        issuer: "test.auth".to_owned(),
        parent_provenance: None,
        proof: "signature".to_owned(),
        subject: "author_1".to_owned(),
    }
}

fn authenticated(actor_kind: &str) -> AuthenticateResponse {
    AuthenticateResponse {
        assertion: Some(wire_assertion(actor_kind)),
        kind: AuthenticateResponseKind::Authenticated,
    }
}

fn respond(rejection: Rejection) -> WebResponse {
    match rejection {
        Rejection::Respond(response) => response,
        Rejection::Fail(failure) => panic!("expected a response, got {failure:?}"),
    }
}

#[test]
fn serves_self_contained_author_workspace_assets() {
    let page = page();
    assert_eq!(page.status, 200);
    assert_eq!(
        header(&page, "content-type").as_deref(),
        Some("text/html; charset=utf-8")
    );
    assert!(page.body.starts_with(b"<!doctype html>"));

    let css = css();
    assert_eq!(
        header(&css, "content-type").as_deref(),
        Some("text/css; charset=utf-8")
    );

    let javascript = javascript();
    assert_eq!(
        header(&javascript, "content-type").as_deref(),
        Some("text/javascript; charset=utf-8")
    );
    let api_path = b"/api/knowledge/articles";
    assert!(
        javascript
            .body
            .windows(api_path.len())
            .any(|chunk| chunk == api_path)
    );
}

#[test]
fn maps_authorization_and_optimistic_concurrency_explicitly() {
    assert_eq!(
        domain_problem(&knowledge_base::ListArticlesError::Forbidden)
            .unwrap()
            .status,
        403
    );
    assert_eq!(
        domain_problem(&knowledge_base::UpdateDraftError::RevisionConflict)
            .unwrap()
            .status,
        409
    );
    assert_eq!(
        domain_problem(&knowledge_base::GetDraftError::ArticleNotFound)
            .unwrap()
            .status,
        404
    );
}

#[test]
fn snake_case_lowers_and_separates_words() {
    assert_eq!(snake_case("RevisionConflict"), "revision_conflict");
    assert_eq!(snake_case("ArticleNotFound"), "article_not_found");
    assert_eq!(snake_case("Forbidden"), "forbidden");
    assert_eq!(snake_case("IdempotencyConflict"), "idempotency_conflict");
    assert_eq!(snake_case(""), "");
    assert_eq!(snake_case("ÄbcDé"), "Äbc_dé");
}

#[test]
fn snake_case_is_idempotent_on_examples() {
    for name in ["SlugConflict", "InvalidRequest", "already_snake", "XYZ"] {
        let once = snake_case(name);
        assert_eq!(snake_case(&once), once);
    }
    assert_eq!(snake_case("XYZ"), "x_y_z");
}

#[test]
fn text_comparisons_follow_characters() {
    assert!(same_text("Forbidden", "Forbidden"));
    assert!(!same_text("Forbidden", "forbidden"));
    assert!(!same_text("Forbid", "Forbidden"));
    assert!(has_prefix("Unknown(UnknownDomainError)", "Unknown("));
    assert!(!has_prefix("Unknown", "Unknown("));
    assert!(has_prefix("anything", ""));
}

#[test]
fn every_known_domain_error_has_its_documented_status() {
    assert_eq!(status_for_variant("Unauthenticated"), 401);
    assert_eq!(status_for_variant("Forbidden"), 403);
    assert_eq!(status_for_variant("ArticleNotFound"), 404);
    assert_eq!(status_for_variant("SlugConflict"), 409);
    assert_eq!(status_for_variant("IdempotencyConflict"), 409);
    assert_eq!(status_for_variant("RevisionConflict"), 409);
    assert_eq!(status_for_variant("InvalidRequest"), 400);
}

#[test]
fn domain_problem_carries_snake_case_code_and_detail() {
    let response = variant_problem("RevisionConflict").unwrap();
    assert_eq!(response.status, 409);
    assert_eq!(
        header(&response, "content-type").as_deref(),
        Some("application/problem+json; charset=utf-8")
    );
    assert_eq!(header(&response, "www-authenticate"), None);
    let body = body_json(&response);
    assert_eq!(body["code"], "revision_conflict");
    assert_eq!(body["status"], 409);
    assert_eq!(
        body["detail"],
        "The Knowledge Base capability rejected this operation (revision_conflict)."
    );
    assert_eq!(body["type"], "about:blank");
    assert_eq!(body["title"], "Conflict");
}

#[test]
fn unauthenticated_domain_error_challenges_bearer() {
    let response = domain_problem(&knowledge_base::CreateDraftError::Unauthenticated).unwrap();
    assert_eq!(response.status, 401);
    assert_eq!(header(&response, "www-authenticate").as_deref(), Some("Bearer"));
    assert_eq!(body_json(&response)["code"], "unauthenticated");
}

#[test]
fn invalid_request_domain_error_is_bad_request() {
    let response = domain_problem(&knowledge_base::PublishArticleError::InvalidRequest).unwrap();
    assert_eq!(response.status, 400);
    assert_eq!(body_json(&response)["code"], "invalid_request");
    let slug = domain_problem(&knowledge_base::CreateDraftError::SlugConflict).unwrap();
    assert_eq!(slug.status, 409);
    assert_eq!(body_json(&slug)["code"], "slug_conflict");
}

#[test]
fn unknown_domain_error_is_a_protocol_violation() {
    let unknown = knowledge_base::UpdateDraftError::Unknown(knowledge_base::UnknownDomainError {
        code: "archived".to_owned(),
        payload: None,
        extra: Default::default(),
    });
    assert!(matches!(
        domain_problem(&unknown),
        Err(EndpointFailure::ProtocolViolation(Capability::KnowledgeBase))
    ));
    assert!(matches!(
        variant_problem("Unknown(anything)"),
        Err(EndpointFailure::ProtocolViolation(Capability::KnowledgeBase))
    ));
}

#[test]
fn authentication_problem_is_401_with_bearer_challenge() {
    let response = authentication_problem();
    assert_eq!(response.status, 401);
    assert_eq!(header(&response, "www-authenticate").as_deref(), Some("Bearer"));
    assert_eq!(response.headers.len(), 2);
    let body = body_json(&response);
    assert_eq!(body["code"], "authentication_required");
    assert_eq!(body["detail"], "Provide a valid Bearer credential.");
    assert_eq!(body["title"], "Unauthorized");
}

#[test]
fn workspace_rejections_have_their_codes() {
    let actor = unsupported_actor();
    assert_eq!(actor.status, 403);
    assert_eq!(body_json(&actor)["code"], "unsupported_actor");
    let mismatch = path_mismatch();
    assert_eq!(mismatch.status, 400);
    assert_eq!(body_json(&mismatch)["code"], "path_body_mismatch");
}

#[test]
fn article_path_must_match_the_body() {
    assert!(article_path_check("article_1", "article_1").is_none());
    let rejected = article_path_check("article_1", "article_2").unwrap();
    assert_eq!(rejected.status, 400);
    assert_eq!(body_json(&rejected)["code"], "path_body_mismatch");
}

#[test]
fn listing_defaults_to_forty_articles() {
    assert_eq!(default_limit(), 40);
}

#[test]
fn only_user_actors_pass_screening() {
    assert!(screen_author(AuthCheck::Authenticated("user".to_owned())).is_ok());
    let service = respond(
        screen_author(AuthCheck::Authenticated("service".to_owned())).unwrap_err(),
    );
    assert_eq!(service.status, 403);
    assert!(String::from_utf8_lossy(&service.body).contains("unsupported_actor"));
    let absent = respond(screen_author(AuthCheck::Absent).unwrap_err());
    assert_eq!(absent.status, 401);
    let rejected = respond(screen_author(AuthCheck::Rejected).unwrap_err());
    assert_eq!(rejected.status, 401);
    assert!(String::from_utf8_lossy(&rejected.body).contains("authentication_required"));
    assert!(matches!(
        screen_author(AuthCheck::Malformed),
        Err(Rejection::Fail(EndpointFailure::ProtocolViolation(Capability::Auth)))
    ));
}

#[test]
fn auth_runtime_failure_crosses_unchanged() {
    let failure = RuntimeFailure::Unavailable {
        capability: "lenso.auth@1",
    };
    match authenticate_author(AuthReply::Failed(failure.clone()), context()) {
        Err(Rejection::Fail(EndpointFailure::Dependency(got))) => assert_eq!(got, failure),
        other => panic!("unexpected {other:?}"),
    }
}

#[test]
fn authenticated_user_is_admitted_with_context() {
    let admitted =
        authenticate_author(AuthReply::Answered(authenticated("user")), context()).unwrap();
    let sealed = admitted
        .sealed_extension(lenso_auth_sdk::ACTOR_ASSERTION_EXTENSION)
        .expect("the author's assertion travels with the context");
    assert_eq!(sealed.issuer(), "test.auth");
    assert!(context()
        .sealed_extension(lenso_auth_sdk::ACTOR_ASSERTION_EXTENSION)
        .is_none());
}

#[test]
fn authenticated_service_actor_is_forbidden() {
    let result = authenticate_author(AuthReply::Answered(authenticated("wrong-kind")), context());
    let response = respond(result.unwrap_err());
    assert_eq!(response.status, 403);
    assert_eq!(body_json(&response)["code"], "unsupported_actor");
}

#[test]
fn rejected_or_absent_credentials_are_unauthenticated() {
    let rejected = respond(authenticate_author(AuthReply::Rejected, context()).unwrap_err());
    assert_eq!(rejected.status, 401);
    assert_eq!(header(&rejected, "www-authenticate").as_deref(), Some("Bearer"));
    let absent = AuthenticateResponse {
        assertion: None,
        kind: AuthenticateResponseKind::Absent,
    };
    let absent = respond(authenticate_author(AuthReply::Answered(absent), context()).unwrap_err());
    assert_eq!(absent.status, 401);
}

#[test]
fn inconsistent_auth_answer_is_a_protocol_violation() {
    let inconsistent = AuthenticateResponse {
        assertion: None,
        kind: AuthenticateResponseKind::Authenticated,
    };
    assert!(matches!(
        authenticate_author(AuthReply::Answered(inconsistent), context()),
        Err(Rejection::Fail(EndpointFailure::ProtocolViolation(Capability::Auth)))
    ));
    let mut expired = wire_assertion("user");
    expired.expires_at = expired.issued_at.clone();
    let expired = AuthenticateResponse {
        assertion: Some(expired),
        kind: AuthenticateResponseKind::Authenticated,
    };
    assert!(matches!(
        authenticate_author(AuthReply::Answered(expired), context()),
        Err(Rejection::Fail(EndpointFailure::ProtocolViolation(Capability::Auth)))
    ));
}

#[test]
fn attach_failure_names_the_cause() {
    match attach_failure("sealed extension already set") {
        EndpointFailure::Internal(detail) => assert_eq!(
            detail,
            "could not attach authenticated author assertion: sealed extension already set"
        ),
        other => panic!("unexpected {other:?}"),
    }
}

#[test]
fn successful_call_is_serialized_with_its_status() {
    let result: Result<&str, DependencyError<knowledge_base::CreateDraftError>> = Ok("draft");
    match json_result(result, 201) {
        Ok(Reply::Json { status, value }) => {
            assert_eq!(status, 201);
            assert_eq!(value, "draft");
        }
        other => panic!("unexpected {other:?}"),
    }
}

#[test]
fn final_knowledge_authorization_denial_is_403() {
    let result: Result<(), _> = Err(DependencyError::Domain(
        knowledge_base::ListArticlesError::Forbidden,
    ));
    match json_result(result, 200) {
        Ok(Reply::Problem(response)) => {
            assert_eq!(response.status, 403);
            assert!(String::from_utf8_lossy(&response.body).contains("forbidden"));
        }
        other => panic!("unexpected {other:?}"),
    }
}

#[test]
fn knowledge_runtime_failure_is_unchanged() {
    let failure = RuntimeFailure::Unavailable {
        capability: "lenso.knowledge-base@1",
    };
    let result: Result<(), DependencyError<knowledge_base::ListArticlesError>> =
        Err(DependencyError::Runtime(failure.clone()));
    match json_result(result, 200) {
        Err(EndpointFailure::Dependency(got)) => assert_eq!(got, failure),
        other => panic!("unexpected {other:?}"),
    }
}
