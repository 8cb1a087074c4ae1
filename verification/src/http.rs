//! What the transport answered, as far as the library has a say in it.

use crate::error::{AppResult, ErrorView, IoKind, NotFoundExt, RuntimeError, io_error};
use vstd::prelude::*;

verus! {

/// What a request that should have been redirected comes to: the target of
/// the redirect, or a not-found error where the answer named none.
pub open spec fn redirect_url(target: Option<Seq<char>>) -> Result<Seq<char>, ErrorView> {
    match target {
        Some(url) => Ok(url),
        None => Err(io_error(IoKind::NotFound, "no redirect url found"@)),
    }
}

/// The URL that a request was redirected to, given the target that the
/// transport reports for it once the request is made.
pub fn get_redirect_url(target: Option<String>) -> (redirect: AppResult<String>)
    ensures
        match target {
            Some(url) => redirect == Ok::<String, RuntimeError>(url),
            None => redirect matches Err(e) && e@ == io_error(
                IoKind::NotFound,
                "no redirect url found"@,
            ),
        },
{
    target.ok_or_not_found("no redirect url found")
}

}
