//! The closed error taxonomy shared by every subsystem: the machine-readable
//! error categories, their HTTP status mapping, their log severity, and the
//! record shape used when an error is durably stored for later inspection.

use vstd::prelude::*;

verus! {

pub const INTERNAL_DB_ERROR_MESSAGE: &'static str = "An internal database error occurred";

pub const INTERNAL_SERVER_ERROR_MESSAGE: &'static str = "An internal server error occurred";

/// Machine-readable category attached to every error that reaches the
/// boundary of the application.
#[derive(Clone, Copy, Debug, PartialEq, Eq, Structural)]
pub enum ErrorType {
    DeserializeError,
    DatabaseError,
    HttpClientError,
    OsuApiError,
    OsuApiScopeError,
    AuthorizatonError,
    BadRequestData,
    BadRequestSyntax,
    UnsupportedType,
    UnableToProcess,
    DataNotFound,
    DuplicateEntry,
}

/// Severity with which an error is logged.
#[derive(Clone, Copy, Debug, PartialEq, Eq, Structural)]
pub enum LogLevel {
    Info,
    Warn,
    Error,
}

impl ErrorType {
    /// The numeric code stored beside a durably recorded error.
    pub open spec fn spec_code(self) -> i32 {
        match self {
            ErrorType::DeserializeError => 100,
            ErrorType::DatabaseError => 200,
            ErrorType::HttpClientError => 300,
            ErrorType::OsuApiError => 400,
            ErrorType::OsuApiScopeError => 401,
            ErrorType::AuthorizatonError => 500,
            ErrorType::BadRequestData => 600,
            ErrorType::BadRequestSyntax => 601,
            ErrorType::UnsupportedType => 602,
            ErrorType::UnableToProcess => 603,
            ErrorType::DataNotFound => 900,
            ErrorType::DuplicateEntry => 901,
        }
    }

    pub fn code(&self) -> (r: i32)
        ensures
            r == self.spec_code(),
    {
        match self {
            ErrorType::DeserializeError => 100,
            ErrorType::DatabaseError => 200,
            ErrorType::HttpClientError => 300,
            ErrorType::OsuApiError => 400,
            ErrorType::OsuApiScopeError => 401,
            ErrorType::AuthorizatonError => 500,
            ErrorType::BadRequestData => 600,
            ErrorType::BadRequestSyntax => 601,
            ErrorType::UnsupportedType => 602,
            ErrorType::UnableToProcess => 603,
            ErrorType::DataNotFound => 900,
            ErrorType::DuplicateEntry => 901,
        }
    }

    pub open spec fn spec_category(self) -> Seq<char> {
        match self {
            ErrorType::DeserializeError => "InternalParsing"@,
            ErrorType::DatabaseError => "Database"@,
            ErrorType::AuthorizatonError => "Authorization"@,
            ErrorType::DataNotFound => "DataNotFound"@,
            ErrorType::DuplicateEntry => "DuplicateEnrty"@,
            ErrorType::BadRequestData => "BadRequest"@,
            ErrorType::BadRequestSyntax => "BadRequest"@,
            ErrorType::UnsupportedType => "BadRequest"@,
            ErrorType::UnableToProcess => "InternalProcessing"@,
            ErrorType::OsuApiError => "OsuApi"@,
            ErrorType::HttpClientError => "HttpClient"@,
            ErrorType::OsuApiScopeError => "OsuApi"@,
        }
    }

    /// Short name of the broader group an error category belongs to.
    pub fn category(&self) -> (r: &'static str)
        ensures
            r@ == self.spec_category(),
    {
        match self {
            ErrorType::DeserializeError => "InternalParsing",
            ErrorType::DatabaseError => "Database",
            ErrorType::AuthorizatonError => "Authorization",
            ErrorType::DataNotFound => "DataNotFound",
            ErrorType::DuplicateEntry => "DuplicateEnrty",
            ErrorType::BadRequestData => "BadRequest",
            ErrorType::BadRequestSyntax => "BadRequest",
            ErrorType::UnsupportedType => "BadRequest",
            ErrorType::UnableToProcess => "InternalProcessing",
            ErrorType::OsuApiError => "OsuApi",
            ErrorType::HttpClientError => "HttpClient",
            ErrorType::OsuApiScopeError => "OsuApi",
        }
    }

    pub open spec fn spec_http_status(self) -> u16 {
        match self {
            ErrorType::DeserializeError => 500,
            ErrorType::DatabaseError => 500,
            ErrorType::AuthorizatonError => 401,
            ErrorType::DataNotFound => 404,
            ErrorType::DuplicateEntry => 409,
            ErrorType::BadRequestData => 422,
            ErrorType::BadRequestSyntax => 400,
            ErrorType::UnsupportedType => 415,
            ErrorType::UnableToProcess => 500,
            ErrorType::OsuApiError => 500,
            ErrorType::HttpClientError => 500,
            ErrorType::OsuApiScopeError => 401,
        }
    }

    /// The HTTP status code with which an error of this category is surfaced.
    pub fn http_status(&self) -> (r: u16)
        ensures
            r == self.spec_http_status(),
    {
        match self {
            ErrorType::DeserializeError => 500,
            ErrorType::DatabaseError => 500,
            ErrorType::AuthorizatonError => 401,
            ErrorType::DataNotFound => 404,
            ErrorType::DuplicateEntry => 409,
            ErrorType::BadRequestData => 422,
            ErrorType::BadRequestSyntax => 400,
            ErrorType::UnsupportedType => 415,
            ErrorType::UnableToProcess => 500,
            ErrorType::OsuApiError => 500,
            ErrorType::HttpClientError => 500,
            ErrorType::OsuApiScopeError => 401,
        }
    }
}

/// An error in the shape in which it is durably recorded: its category, a
/// message, and optional structured data rendered as text.
#[derive(Debug)]
pub struct DbErrorObject {
    pub error_type: ErrorType,
    pub message: String,
    pub data: Option<String>,
}

impl DbErrorObject {
    pub fn new(error_type: ErrorType, message: String, data: Option<String>) -> (r: Self)
        ensures
            r.error_type == error_type,
            r.message == message,
            r.data == data,
    {
        Self { error_type, message, data }
    }
}

/// Failure to turn text received from a collaborator into the expected
/// shape; carries the offending text so it can be recorded.
#[derive(Debug)]
pub struct DeserializeError {
    pub message: String,
    pub data: String,
}

impl DeserializeError {
    pub fn user_message(&self) -> (r: String)
        ensures
            r@ == INTERNAL_SERVER_ERROR_MESSAGE@,
    {
        String::from_str(INTERNAL_SERVER_ERROR_MESSAGE)
    }

    pub fn error_type(&self) -> (r: ErrorType)
        ensures
            r == ErrorType::DeserializeError,
    {
        ErrorType::DeserializeError
    }

    /// Deserialization failures are always durably recorded.
    pub fn should_save(&self) -> (r: bool)
        ensures
            r,
    {
        true
    }

    pub fn error_message(&self) -> (r: String)
        ensures
            r@ == self.message@,
    {
        self.message.clone()
    }

    pub fn error_data(&self) -> (r: Option<String>)
        ensures
            r matches Some(d) && d@ == self.data@,
    {
        Some(self.data.clone())
    }

    pub fn as_db_error_object(&self) -> (r: DbErrorObject)
        ensures
            r.error_type == ErrorType::DeserializeError,
            r.message@ == self.message@,
            r.data matches Some(d) && d@ == self.data@,
    {
        DbErrorObject::new(self.error_type(), self.error_message(), self.error_data())
    }
}

} // verus!
