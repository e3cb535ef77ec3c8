//! Errors of the HTTP routes, and the shape of one database round trip.

use vstd::prelude::*;
use crate::db::{params_view, QueryResponse, SqlQuery};
use crate::json::JsonView;

verus! {

/// Why a route failed; each kind goes back with its own status.
pub enum ApiError {
    BadRequest(String),
    NotFound(String),
    DbError(String),
    Internal(String),
}

/// The mathematical form of an [`ApiError`].
pub enum ApiErrorView {
    BadRequest(Seq<char>),
    NotFound(Seq<char>),
    DbError(Seq<char>),
    Internal(Seq<char>),
}

impl View for ApiError {
    type V = ApiErrorView;

    open spec fn view(&self) -> ApiErrorView {
        match self {
            ApiError::BadRequest(m) => ApiErrorView::BadRequest(m@),
            ApiError::NotFound(m) => ApiErrorView::NotFound(m@),
            ApiError::DbError(m) => ApiErrorView::DbError(m@),
            ApiError::Internal(m) => ApiErrorView::Internal(m@),
        }
    }
}

impl ApiError {
    /// The message the error carries.
    pub fn message(&self) -> (r: &String)
        ensures
            r@ == match self@ {
                ApiErrorView::BadRequest(m) => m,
                ApiErrorView::NotFound(m) => m,
                ApiErrorView::DbError(m) => m,
                ApiErrorView::Internal(m) => m,
            },
    {
        match self {
            ApiError::BadRequest(m) => m,
            ApiError::NotFound(m) => m,
            ApiError::DbError(m) => m,
            ApiError::Internal(m) => m,
        }
    }

    /// The HTTP status the error is answered with: 400 for a bad request, 404
    /// for a missing record, 500 otherwise.
    pub fn status(&self) -> (r: u16)
        ensures
            r == match self@ {
                ApiErrorView::BadRequest(_) => 400u16,
                ApiErrorView::NotFound(_) => 404u16,
                ApiErrorView::DbError(_) => 500u16,
                ApiErrorView::Internal(_) => 500u16,
            },
    {
        match self {
            ApiError::BadRequest(_) => 400,
            ApiError::NotFound(_) => 404,
            ApiError::DbError(_) => 500,
            ApiError::Internal(_) => 500,
        }
    }
}

/// What one query came back with: the reply, or the text of the failure.
pub type DbOutcome = Result<QueryResponse, String>;

/// `q` is the statement `sql` with the parameters `params`.
pub open spec fn query_is(q: SqlQuery, sql: Seq<char>, params: Seq<JsonView>) -> bool {
    q.sql@ == sql && params_view(q.params@) == params
}

} // verus!
