//! The files that make up a Hermes directory.
use vstd::prelude::*;

use crate::error::{HermesError, RequestError, ResponseError};
use crate::status_signal::StatusSignal;

verus! {

/// A file in the directory that two Hermes sides share.
#[derive(Clone, Copy, Debug, PartialEq, Eq, Structural)]
pub enum Entry {
    /// Holds the client's request.
    RequestFile,
    /// Holds the server's response.
    ResponseFile,
    /// Holds the error that the server put in place of a response.
    ErrorFile,
    /// An empty marker file.
    Signal(StatusSignal),
}

impl Entry {
    /// The name of the file inside the directory.
    pub open spec fn name(self) -> Seq<char> {
        match self {
            Entry::RequestFile => "request.xff"@,
            Entry::ResponseFile => "response.xff"@,
            Entry::ErrorFile => "error.xff"@,
            Entry::Signal(s) => s.name(),
        }
    }

    /// The name of the file inside the directory, as a `String`.
    pub fn file_name(&self) -> (name: String)
        ensures
            name@ == self.name(),
    {
        match self {
            Entry::RequestFile => String::from_str("request.xff"),
            Entry::ResponseFile => String::from_str("response.xff"),
            Entry::ErrorFile => String::from_str("error.xff"),
            Entry::Signal(s) => s.to_string(),
        }
    }
}

/// One direction of the channel: the client's requests or the server's
/// responses.
#[derive(Clone, Copy, Debug, PartialEq, Eq, Structural)]
pub enum Channel {
    Request,
    Response,
}

impl Channel {
    /// The file that holds the value travelling in this direction.
    pub open spec fn spec_value_file(self) -> Entry {
        match self {
            Channel::Request => Entry::RequestFile,
            Channel::Response => Entry::ResponseFile,
        }
    }

    /// The marker that says a value waits in this direction.
    pub open spec fn spec_ready_signal(self) -> StatusSignal {
        match self {
            Channel::Request => StatusSignal::StatusOpen,
            Channel::Response => StatusSignal::StatusDone,
        }
    }

    /// The error for a value asked for in this direction that was never
    /// written.
    pub open spec fn spec_missing<V>(self) -> HermesError<V> {
        match self {
            Channel::Request => HermesError::RequestError(RequestError::RequestDoesNotExist),
            Channel::Response => HermesError::ResponseError(ResponseError::ResponseDoesNotExist),
        }
    }

    /// The file that holds the value travelling in this direction.
    #[verifier::when_used_as_spec(spec_value_file)]
    pub fn value_file(self) -> (entry: Entry)
        ensures
            entry == self.spec_value_file(),
    {
        match self {
            Channel::Request => Entry::RequestFile,
            Channel::Response => Entry::ResponseFile,
        }
    }

    /// The marker that says a value waits in this direction.
    #[verifier::when_used_as_spec(spec_ready_signal)]
    pub fn ready_signal(self) -> (signal: StatusSignal)
        ensures
            signal == self.spec_ready_signal(),
    {
        match self {
            Channel::Request => StatusSignal::StatusOpen,
            Channel::Response => StatusSignal::StatusDone,
        }
    }

    /// The error for a value asked for in this direction that was never
    /// written.
    pub fn missing<V>(self) -> (error: HermesError<V>)
        ensures
            error == self.spec_missing::<V>(),
    {
        match self {
            Channel::Request => HermesError::RequestError(RequestError::RequestDoesNotExist),
            Channel::Response => HermesError::ResponseError(ResponseError::ResponseDoesNotExist),
        }
    }
}

} // verus!
