//! The errors that frames, arenas and leases report.

use vstd::prelude::*;

verus! {

/// Why a frame operation failed.
#[derive(Debug)]
pub enum Error {
    /// The data handed in does not describe a usable frame.
    InvalidData(String),
    /// A bounded resource, such as an arena pool, has nothing left to give.
    ResourceExhausted(String),
}

/// What an [`Error`] says, as a mathematical value.
pub enum ErrorModel {
    InvalidData(Seq<char>),
    ResourceExhausted(Seq<char>),
}

impl View for Error {
    type V = ErrorModel;

    open spec fn view(&self) -> ErrorModel {
        match *self {
            Error::InvalidData(message) => ErrorModel::InvalidData(message@),
            Error::ResourceExhausted(message) => ErrorModel::ResourceExhausted(message@),
        }
    }
}

impl Error {
    /// An [`Error::InvalidData`] that carries `message`.
    pub fn invalid(message: String) -> (error: Self)
        ensures
            error@ == ErrorModel::InvalidData(message@),
    {
        Error::InvalidData(message)
    }

    /// An [`Error::ResourceExhausted`] that carries `message`.
    pub fn exhausted(message: String) -> (error: Self)
        ensures
            error@ == ErrorModel::ResourceExhausted(message@),
    {
        Error::ResourceExhausted(message)
    }
}

} // verus!
