//! HTTP-level outcomes of provider calls, grouped by status class.

use vstd::prelude::*;

verus! {

/// Redirect responses.
#[derive(Debug)]
pub enum Redirect {
    /// The source URL has been changed permanently; carries the new URL.
    MovedPermanently(String),
    /// The URL has been changed temporarily.
    Found,
}

impl Redirect {
    pub fn message(&self) -> (r: String)
        ensures
            (self matches Redirect::MovedPermanently(_) ==> r@
                == "The source URL has been changed permanently."@),
            (self matches Redirect::Found ==> r@ == "The URL has been changed temporarily."@),
    {
        match self {
            Redirect::MovedPermanently(_) => String::from_str(
                "The source URL has been changed permanently.",
            ),
            Redirect::Found => String::from_str("The URL has been changed temporarily."),
        }
    }
}

/// Client-error responses.
#[derive(Clone, Copy, Debug, PartialEq, Eq, Structural)]
pub enum ClientError {
    BadRequest,
    Unauthorized,
    Forbidden,
    NotFound,
    MethodNotAllowed,
    Gone,
}

impl ClientError {
    pub open spec fn spec_message(self) -> Seq<char> {
        match self {
            ClientError::BadRequest => "The server will not process due to bad request."@,
            ClientError::Unauthorized => "The client is not authorized or has wrong credentials in request."@,
            ClientError::Forbidden => "The client has no access to this resource."@,
            ClientError::NotFound => "The server can not find the requested resource."@,
            ClientError::MethodNotAllowed => "The used method is not allowed on this resource."@,
            ClientError::Gone => "The requested content has been permanently deleted from the server."@,
        }
    }

    pub fn message(&self) -> (r: String)
        ensures
            r@ == self.spec_message(),
    {
        match self {
            ClientError::BadRequest => String::from_str(
                "The server will not process due to bad request.",
            ),
            ClientError::Unauthorized => String::from_str(
                "The client is not authorized or has wrong credentials in request.",
            ),
            ClientError::Forbidden => String::from_str(
                "The client has no access to this resource.",
            ),
            ClientError::NotFound => String::from_str(
                "The server can not find the requested resource.",
            ),
            ClientError::MethodNotAllowed => String::from_str(
                "The used method is not allowed on this resource.",
            ),
            ClientError::Gone => String::from_str(
                "The requested content has been permanently deleted from the server.",
            ),
        }
    }
}

/// Server-error responses.
#[derive(Clone, Copy, Debug, PartialEq, Eq, Structural)]
pub enum ServerError {
    InternalServerError,
    NotImplemented,
    BadGateway,
    ServiceUnavailable,
    GatewayTimeout,
}

impl ServerError {
    pub open spec fn spec_message(self) -> Seq<char> {
        match self {
            ServerError::InternalServerError => "The server has encountered a situation it does not know how to handle."@,
            ServerError::NotImplemented => "The request is not supported by the server."@,
            ServerError::BadGateway => "The gateway server has got an invalid response."@,
            ServerError::ServiceUnavailable => "The server is unavailable to handle requests."@,
            ServerError::GatewayTimeout => "The gateway server had timeout while waiting for response."@,
        }
    }

    pub fn message(&self) -> (r: String)
        ensures
            r@ == self.spec_message(),
    {
        match self {
            ServerError::InternalServerError => String::from_str(
                "The server has encountered a situation it does not know how to handle.",
            ),
            ServerError::NotImplemented => String::from_str(
                "The request is not supported by the server.",
            ),
            ServerError::BadGateway => String::from_str(
                "The gateway server has got an invalid response.",
            ),
            ServerError::ServiceUnavailable => String::from_str(
                "The server is unavailable to handle requests.",
            ),
            ServerError::GatewayTimeout => String::from_str(
                "The gateway server had timeout while waiting for response.",
            ),
        }
    }
}

} // verus!
