//! Checks on the decoded request before the Knowledge Base is called.

use crate::response::{path_mismatch, path_mismatch_view, WebResponse};
use crate::text::same_text;
use vstd::prelude::*;

verus! {

/// The page size of an article listing whose query names no `limit`.
pub fn default_limit() -> (r: i64)
    ensures
        r == 40,
{
    40
}

/// Checks that the article named in the route path is the one that the JSON
/// body names. A mismatch is answered `400 path_body_mismatch` before any
/// dependency is called; a match lets the request go on (`None`).
pub fn article_path_check(path_article_id: &str, body_article_id: &str) -> (r: Option<WebResponse>)
    ensures
        r is None <==> path_article_id@ == body_article_id@,
        r matches Some(p) ==> p@ == path_mismatch_view(),
{
    if same_text(path_article_id, body_article_id) {
        None
    } else {
        Some(path_mismatch())
    }
}

} // verus!
