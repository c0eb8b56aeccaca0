use vstd::prelude::*;

verus! {

/// The HTTP status with which a request is answered.
#[derive(Clone, Copy, Debug, PartialEq, Eq, Structural)]
pub enum Status {
    Success,
    Created,
    Unauthorized,
    InternalServerError,
}

impl Status {
    /// The numeric HTTP code of a status.
    pub open spec fn code_spec(self) -> u16 {
        match self {
            Status::Success => 200,
            Status::Created => 201,
            Status::Unauthorized => 401,
            Status::InternalServerError => 500,
        }
    }

    pub fn code(&self) -> (r: u16)
        ensures
            r == self.code_spec(),
    {
        match self {
            Status::Success => 200,
            Status::Created => 201,
            Status::Unauthorized => 401,
            Status::InternalServerError => 500,
        }
    }
}


/// Why a request could not be served. Every such failure is answered with a
/// bare internal server error, without detail.
#[derive(Clone, Copy, Debug, PartialEq, Eq, Structural)]
pub enum AppError {
    /// The database refused or failed a statement.
    Database,
    /// The password could not be hashed.
    Hashing,
}

impl AppError {
    pub fn status(&self) -> (r: Status)
        ensures
            r == Status::InternalServerError,
    {
        Status::InternalServerError
    }
}

} // verus!
