//! Answers to requests.

use vstd::prelude::*;

verus! {

/// Status of an answer that is not an error.
#[derive(Clone, Copy, Debug, PartialEq, Eq, Structural)]
pub enum StatusCode {
    Success,
    BadRequest,
}

/// An answer: a status and, where there is something to send, a document.
#[derive(Debug, PartialEq, Eq)]
pub struct ApiResponse<T> {
    pub json: Option<T>,
    pub status: StatusCode,
}

/// The contents of an [`ApiResponse`].
#[verifier::ext_equal]
#[verifier::reject_recursive_types(V)]
pub struct ApiResponseView<V> {
    pub json: Option<V>,
    pub status: StatusCode,
}

impl<T: View> View for ApiResponse<T> {
    type V = ApiResponseView<T::V>;

    open spec fn view(&self) -> ApiResponseView<T::V> {
        ApiResponseView {
            json: match self.json {
                Some(document) => Some(document@),
                None => None,
            },
            status: self.status,
        }
    }
}

impl<T> ApiResponse<T> {
    /// An answer with a document.
    pub fn json(document: T, status: StatusCode) -> (response: Self)
        ensures
            response == (ApiResponse { json: Some(document), status }),
    {
        ApiResponse { json: Some(document), status }
    }

    /// An answer without a document.
    pub fn with_status(status: StatusCode) -> (response: Self)
        ensures
            response == (ApiResponse { json: None::<T>, status }),
    {
        ApiResponse { json: None, status }
    }
}

impl<T> Default for ApiResponse<T> {
    /// The answer that says nothing but that all went well.
    fn default() -> (response: Self)
        ensures
            response == (ApiResponse { json: None::<T>, status: StatusCode::Success }),
    {
        ApiResponse { json: None, status: StatusCode::Success }
    }
}

/// Why a request failed. `E` is an error from outside, passed on as it came.
#[derive(Debug, PartialEq, Eq)]
pub enum WebError<E> {
    Forbidden(&'static str),
    DbError(String),
    Outside(E),
}

/// The contents of a [`WebError`].
pub enum WebErrorView<E> {
    Forbidden(Seq<char>),
    DbError(Seq<char>),
    Outside(E),
}

impl<E> View for WebError<E> {
    type V = WebErrorView<E>;

    open spec fn view(&self) -> WebErrorView<E> {
        match self {
            WebError::Forbidden(message) => WebErrorView::Forbidden(message@),
            WebError::DbError(message) => WebErrorView::DbError(message@),
            WebError::Outside(error) => WebErrorView::Outside(*error),
        }
    }
}

} // verus!
