//! The answer that the boundary gives to a request that was rejected.

use crate::response::{
    code_of, details_of, status_of, ApiErrorType, ApiErrorView, ErrorDetails, ErrorDetailsView,
};
use vstd::prelude::*;

verus! {

/// The body of the answer to a rejected request.
#[derive(Debug, Clone, PartialEq, Eq)]
pub struct ApiErrorResponse<'a> {
    pub code: String,
    pub details: Option<ErrorDetails<'a>>,
}

/// The answer to a rejected request: its status code and its body.
#[derive(Debug, Clone, PartialEq, Eq)]
pub struct ErrorReply<'a> {
    pub status_code: u16,
    pub body: ApiErrorResponse<'a>,
}

/// The mathematical value of an [`ErrorReply`].
pub struct ErrorReplyView {
    pub status_code: u16,
    pub code: Seq<char>,
    pub details: Option<ErrorDetailsView>,
}

impl<'a> DeepView for ErrorReply<'a> {
    type V = ErrorReplyView;

    open spec fn deep_view(&self) -> ErrorReplyView {
        ErrorReplyView {
            status_code: self.status_code,
            code: self.body.code@,
            details: self.body.details.deep_view(),
        }
    }
}

/// The answer to a request for which there is no route.
pub open spec fn not_found_reply() -> ErrorReplyView {
    ErrorReplyView { status_code: 404, code: "ROUTE_NOT_FOUND"@, details: None }
}

/// The answer to a request that was rejected for a reason unknown to the
/// boundary.
pub open spec fn unclassified_reply() -> ErrorReplyView {
    ErrorReplyView { status_code: 500, code: "INTERNAL_SERVER_ERROR"@, details: None }
}

/// The answer that reports a failure.
pub open spec fn reply_of(error: ApiErrorView) -> ErrorReplyView {
    ErrorReplyView {
        status_code: status_of(error),
        code: code_of(error),
        details: details_of(error),
    }
}

/// The answer to a rejected request, given what is known of the rejection:
/// whether no route matched, the failure it carries, and whether no method
/// matched. An unmatched route comes first, then the failure; an unmatched
/// method is answered as an unmatched route.
pub open spec fn rejection_reply(
    not_found: bool,
    failure: Option<ApiErrorView>,
    method_not_allowed: bool,
) -> ErrorReplyView {
    if not_found {
        not_found_reply()
    } else {
        match failure {
            Some(error) => reply_of(error),
            None => if method_not_allowed {
                not_found_reply()
            } else {
                unclassified_reply()
            },
        }
    }
}

/// The answer with the given status code, machine code and details.
pub fn create_err_reply<'a>(
    status_code: u16,
    code: &str,
    details: Option<ErrorDetails<'a>>,
) -> (reply: ErrorReply<'a>)
    ensures
        reply.deep_view() == (ErrorReplyView {
            status_code,
            code: code@,
            details: details.deep_view(),
        }),
{
    ErrorReply { status_code, body: ApiErrorResponse { code: code.to_owned(), details } }
}

/// The answer to a request for which there is no route.
pub fn create_not_found_err_reply() -> (reply: ErrorReply<'static>)
    ensures
        reply.deep_view() == not_found_reply(),
{
    create_err_reply(404, "ROUTE_NOT_FOUND", None)
}

/// Answers a rejected request.
pub fn handle_rejection<'a>(
    not_found: bool,
    failure: Option<&'a ApiErrorType>,
    method_not_allowed: bool,
) -> (reply: ErrorReply<'a>)
    ensures
        reply.deep_view() == rejection_reply(not_found, failure.deep_view(), method_not_allowed),
{
    if not_found {
        create_not_found_err_reply()
    } else {
        match failure {
            Some(error) => create_err_reply(error.status_code(), error.code(), error.details()),
            None => {
                if method_not_allowed {
                    create_not_found_err_reply()
                } else {
                    create_err_reply(500, "INTERNAL_SERVER_ERROR", None)
                }
            },
        }
    }
}

/// An unmatched route and an unmatched method are answered alike, and as
/// the failure `RouteNotFound` is: the answer does not show whether a route
/// exists.
pub proof fn lemma_unmatched_requests_look_alike(failure: Option<ApiErrorView>, method: bool)
    ensures
        rejection_reply(true, failure, method) == rejection_reply(false, None, true),
        rejection_reply(false, None, true) == reply_of(ApiErrorView::RouteNotFound),
{
}

/// A rejection that the boundary cannot classify is answered as an
/// internal error is.
pub proof fn lemma_unclassified_is_internal_error()
    ensures
        rejection_reply(false, None, false) == reply_of(ApiErrorView::InternalServerError),
{
}

} // verus!
