//! Contacts: the domain model, validation and request handling of a
//! server-rendered contact book.
//!
//! Nothing here performs input or output. The site keeps its contacts
//! in a database; `store` holds a model of that table in memory, and
//! `table` states what each statement does to it. A handler takes what
//! the request held and the model, and returns the reply as a value. The
//! program around the library sends the statements to the database and
//! calls the functions that the handlers are made of.

use vstd::prelude::*;
use vstd::string::StringExecFns;

pub mod api;
pub mod html_views;
pub mod hx_triggers;
pub mod model;
pub mod paths;
pub mod pending_contact;
pub mod store;
pub mod table;
pub mod text;

verus! {

/// A reply of plain text: the status code and the body.
#[derive(Debug)]
pub struct Plain {
    pub status: u16,
    pub body: String,
}

/// The body that every failure is answered with.
pub open spec fn internal_error_body() -> Seq<char> {
    "An internal error occurred. Please try again later."@
}

/// What can fail while a request is served. Each kind carries the text of
/// the failure underneath, which is never shown to the client.
#[derive(Debug)]
pub enum AppError {
    /// No connection could be had from the pool.
    Pool(String),
    /// The database refused or failed a statement.
    Diesel(String),
    /// The task that ran the statement did not finish.
    Deadpool(String),
}

impl AppError {
    /// The error as a line of text: its kind, then the failure underneath.
    pub open spec fn text_of(self) -> Seq<char> {
        match self {
            AppError::Pool(detail) => "Pool error: "@ + detail@,
            AppError::Diesel(detail) => "PostgreSQL error: "@ + detail@,
            AppError::Deadpool(detail) => "Deadpool error: "@ + detail@,
        }
    }

    /// The error as a line of text, for a log.
    pub fn to_string(&self) -> (text: String)
        ensures
            text@ == self.text_of(),
    {
        match self {
            AppError::Pool(detail) => String::from_str("Pool error: ").concat(detail.as_str()),
            AppError::Diesel(detail) => String::from_str("PostgreSQL error: ").concat(
                detail.as_str(),
            ),
            AppError::Deadpool(detail) => String::from_str("Deadpool error: ").concat(
                detail.as_str(),
            ),
        }
    }

    /// The reply to the client: status 500 and one fixed sentence,
    /// whatever the error was.
    pub fn into_response(self) -> (response: Plain)
        ensures
            response.status == 500,
            response.body@ == internal_error_body(),
    {
        Plain {
            status: 500,
            body: String::from_str("An internal error occurred. Please try again later."),
        }
    }
}

/// What the error says when the table has no identifier left.
pub open spec fn exhausted_text() -> Seq<char> {
    "no identifier is left"@
}

/// What the error says when a statement needs a record that is not there.
pub open spec fn missing_text() -> Seq<char> {
    "Record not found"@
}

/// The error of a table that has no identifier left for a new record.
pub fn exhausted() -> (error: AppError)
    ensures
        error matches AppError::Diesel(detail) && detail@ == exhausted_text(),
{
    AppError::Diesel(String::from_str("no identifier is left"))
}

/// The error of a statement that needs a record that is not there.
pub fn missing() -> (error: AppError)
    ensures
        error matches AppError::Diesel(detail) && detail@ == missing_text(),
{
    AppError::Diesel(String::from_str("Record not found"))
}

} // verus!
