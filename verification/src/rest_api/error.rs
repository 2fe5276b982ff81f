//! Failures of store operations.

use crate::text::{around_number, decimal};
use vstd::prelude::*;

verus! {

/// Why a store operation failed. Each variant carries the message for the
/// caller.
#[derive(Debug)]
pub enum AppError {
    /// No record of the named kind has the given identifier.
    NotFound(String),
    /// The request refers to a record that does not exist.
    BadRequest(String),
}

/// An [`AppError`] with its message as a character sequence.
pub enum AppErrorView {
    NotFound(Seq<char>),
    BadRequest(Seq<char>),
}

impl View for AppError {
    type V = AppErrorView;

    open spec fn view(&self) -> AppErrorView {
        match self {
            AppError::NotFound(message) => AppErrorView::NotFound(message@),
            AppError::BadRequest(message) => AppErrorView::BadRequest(message@),
        }
    }
}

impl AppErrorView {
    /// The failure of looking up the user `id`.
    pub open spec fn user_not_found(id: u64) -> AppErrorView {
        AppErrorView::NotFound("User "@ + decimal(id as nat) + " not found"@)
    }

    /// The failure of looking up the post `id`.
    pub open spec fn post_not_found(id: u64) -> AppErrorView {
        AppErrorView::NotFound("Post "@ + decimal(id as nat) + " not found"@)
    }

    /// The failure of creating a post for the missing author `author_id`.
    pub open spec fn author_not_found(author_id: u64) -> AppErrorView {
        AppErrorView::BadRequest("Author "@ + decimal(author_id as nat) + " not found"@)
    }

    /// The message carried by the failure.
    pub open spec fn message(self) -> Seq<char> {
        match self {
            AppErrorView::NotFound(message) => message,
            AppErrorView::BadRequest(message) => message,
        }
    }
}

impl AppError {
    /// The failure of looking up the user `id`.
    pub fn user_not_found(id: u64) -> (e: AppError)
        ensures
            e@ == AppErrorView::user_not_found(id),
    {
        AppError::NotFound(around_number("User ", id, " not found"))
    }

    /// The failure of looking up the post `id`.
    pub fn post_not_found(id: u64) -> (e: AppError)
        ensures
            e@ == AppErrorView::post_not_found(id),
    {
        AppError::NotFound(around_number("Post ", id, " not found"))
    }

    /// The failure of creating a post for the missing author `author_id`.
    pub fn author_not_found(author_id: u64) -> (e: AppError)
        ensures
            e@ == AppErrorView::author_not_found(author_id),
    {
        AppError::BadRequest(around_number("Author ", author_id, " not found"))
    }

    /// The message carried by the failure.
    pub fn to_string(&self) -> (s: String)
        ensures
            s@ == self@.message(),
    {
        match self {
            AppError::NotFound(message) => message.clone(),
            AppError::BadRequest(message) => message.clone(),
        }
    }
}

} // verus!
