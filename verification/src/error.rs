//! Errors that a Hermes operation can end with.
use vstd::prelude::*;

verus! {

/// An error reported by the operating system; Hermes only carries it.
#[verifier::external_type_specification]
#[verifier::external_body]
pub struct ExIoError(std::io::Error);

/// Why a path cannot hold a Hermes directory.
#[derive(Clone, Copy, Debug, PartialEq, Eq, Structural)]
pub enum PathError {
    /// Something that is not a directory already stands at the path.
    NotDirectory,
    /// The path is empty.
    EmptyPath,
}

/// A request was asked for while none had been written.
#[derive(Clone, Copy, Debug, PartialEq, Eq, Structural)]
pub enum RequestError {
    RequestDoesNotExist,
}

/// A response was asked for while none had been written.
#[derive(Clone, Copy, Debug, PartialEq, Eq, Structural)]
pub enum ResponseError {
    ResponseDoesNotExist,
}

/// The ways a Hermes operation can fail. `V` is the type of the values that
/// travel through the channel; a server error is one of them.
#[derive(Debug)]
pub enum HermesError<V> {
    PathError(PathError),
    IOError(std::io::Error),
    /// A value could not be written or read; the text says why.
    NabuError(String),
    TimeOutError,
    /// The server put this value in place of a response.
    ServerError(V),
    RequestError(RequestError),
    ResponseError(ResponseError),
}

impl<V> HermesError<V> {
    /// The operating system's error, if this is one.
    pub fn get_inner_io_error(&self) -> (inner: Option<&std::io::Error>)
        ensures
            match self {
                HermesError::IOError(e) => inner == Some(e),
                _ => inner is None,
            },
    {
        match self {
            HermesError::IOError(e) => Some(e),
            _ => None,
        }
    }

    /// The text of a failed write or read, if this is one.
    pub fn get_inner_nabu_error(&self) -> (inner: Option<String>)
        ensures
            match self {
                HermesError::NabuError(e) => inner == Some(*e),
                _ => inner is None,
            },
    {
        match self {
            HermesError::NabuError(e) => Some(e.clone()),
            _ => None,
        }
    }

    /// The path error, if this is one.
    pub fn get_inner_path_error(&self) -> (inner: Option<&PathError>)
        ensures
            match self {
                HermesError::PathError(e) => inner == Some(e),
                _ => inner is None,
            },
    {
        match self {
            HermesError::PathError(e) => Some(e),
            _ => None,
        }
    }

    /// The request error, if this is one.
    pub fn get_inner_request_error(&self) -> (inner: Option<&RequestError>)
        ensures
            match self {
                HermesError::RequestError(e) => inner == Some(e),
                _ => inner is None,
            },
    {
        match self {
            HermesError::RequestError(e) => Some(e),
            _ => None,
        }
    }

    /// The response error, if this is one.
    pub fn get_inner_response_error(&self) -> (inner: Option<&ResponseError>)
        ensures
            match self {
                HermesError::ResponseError(e) => inner == Some(e),
                _ => inner is None,
            },
    {
        match self {
            HermesError::ResponseError(e) => Some(e),
            _ => None,
        }
    }
}

impl<V: Clone> HermesError<V> {
    /// A copy of the value the server put in place of a response, if this is
    /// such an error.
    pub fn get_inner_server_error(&self) -> (inner: Option<V>)
        ensures
            match self {
                HermesError::ServerError(e) => inner matches Some(c) && cloned(*e, c),
                _ => inner is None,
            },
    {
        match self {
            HermesError::ServerError(e) => Some(e.clone()),
            _ => None,
        }
    }
}

} // verus!
