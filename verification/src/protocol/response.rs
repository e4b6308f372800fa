//! The outcome of parsing a wire response.
//!
//! A response that parses is one of two things: what the operation asked for,
//! or the server's refusal. A refusal is not a failure of transport or of
//! decoding, and callers branch on it separately, so the two outcomes are kept
//! apart here and a failure to parse is an error of its own.

use vstd::prelude::*;
use crate::errors::{ProtocolError, Result};

verus! {

/// The response that an operation asked for.
#[derive(Clone, Debug)]
pub struct DataResponse<T> {
    pub data: T,
}

/// One error as the server reports it.
#[derive(Clone, Debug)]
pub struct ServerError {
    pub message: String,
}

/// The server's refusal of an operation.
#[derive(Clone, Debug)]
pub struct ErrorResponse {
    pub errors: Vec<ServerError>,
}

/// A well-formed response, or a well-formed refusal by the server.
#[derive(Clone, Debug)]
pub enum ResponseOrError<T> {
    Response(DataResponse<T>),
    Error(ErrorResponse),
}

impl<T> ResponseOrError<T> {
    /// Wraps the data of a successful response.
    pub fn from_data(data: T) -> (res: Self)
        ensures
            res == ResponseOrError::Response(DataResponse { data }),
    {
        Self::Response(DataResponse { data })
    }

    /// Decides what a parsed document is. A document with data is a
    /// response, whatever else it holds. One without data but with errors is
    /// the server's refusal. One with neither matches no shape and is a
    /// decoding error.
    pub fn from_parts(data: Option<T>, errors: Option<Vec<ServerError>>) -> (res: Result<Self>)
        ensures
            res.is_ok() == (data.is_some() || errors.is_some()),
            data matches Some(d) ==> res == Ok::<Self, ProtocolError>(
                ResponseOrError::Response(DataResponse { data: d }),
            ),
            data.is_none() ==> (errors matches Some(list) ==> res == Ok::<Self, ProtocolError>(
                ResponseOrError::Error(ErrorResponse { errors: list }),
            )),
            res matches Err(e) ==> e@ == "Response matches neither a response nor an error"@,
    {
        match data {
            Some(data) => Ok(Self::Response(DataResponse { data })),
            None => match errors {
                Some(errors) => Ok(Self::Error(ErrorResponse { errors })),
                None => Err(
                    ProtocolError::coerce_static_from_str(
                        "Response matches neither a response nor an error",
                    ),
                ),
            },
        }
    }

    /// Whether this is the server's refusal.
    pub fn is_error(&self) -> (refused: bool)
        ensures
            refused == (self is Error),
    {
        match self {
            Self::Error(_) => true,
            Self::Response(_) => false,
        }
    }

    /// The data of the response, unless the server refused.
    pub fn response(&self) -> (data: Option<&T>)
        ensures
            match self {
                ResponseOrError::Response(response) => data == Some(&response.data),
                ResponseOrError::Error(_) => data.is_none(),
            },
    {
        match self {
            Self::Response(response) => Some(&response.data),
            Self::Error(_) => None,
        }
    }

    /// Takes the data out of the response, unless the server refused.
    pub fn consume_response(self) -> (data: Option<T>)
        ensures
            match self {
                ResponseOrError::Response(response) => data == Some(response.data),
                ResponseOrError::Error(_) => data.is_none(),
            },
    {
        match self {
            Self::Response(response) => Some(response.data),
            Self::Error(_) => None,
        }
    }

    /// Takes the server's refusal out, if this is one.
    pub fn consume_error(self) -> (refusal: Option<ErrorResponse>)
        ensures
            match self {
                ResponseOrError::Response(_) => refusal.is_none(),
                ResponseOrError::Error(error) => refusal == Some(error),
            },
    {
        match self {
            Self::Response(_) => None,
            Self::Error(error) => Some(error),
        }
    }
}

} // verus!
