//! Verified request-handling core of the Knowledge Base author workspace.
//!
//! The workspace owns presentation and orchestration only: it serves the
//! embedded author page, authenticates the author through the Auth
//! Capability, checks the decoded request, and represents the Knowledge Base's
//! answers as HTTP responses. Articles, revisions, publications and the final
//! authorization decision stay with the Knowledge Base Provider.

pub mod assets;
pub mod author;
pub mod domain;
pub mod laws;
pub mod request;
pub mod response;
pub mod text;

pub use assets::{css, javascript, page, CSS, JS, PAGE};
pub use author::{
    attach_failure, authenticate_author, screen_author, AuthCheck, AuthReply, DecodedAuth, Rejection,
};
pub use domain::{
    domain_problem, json_result, status_for_variant, variant_problem, Capability, DependencyError,
    EndpointFailure, Reply,
};
pub use request::{article_path_check, default_limit};
pub use response::{
    asset, authentication_problem, path_mismatch, unsupported_actor, Header, ResponseView,
    WebResponse,
};
pub use text::{has_prefix, same_text, snake_case};

use vstd::prelude::*;

verus! {

/// Forces this native Plugin crate to be retained by a linked Host.
pub fn link() {
}

} // verus!
