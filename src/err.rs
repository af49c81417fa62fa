//! Errors of the library.
use vstd::prelude::*;

verus! {

/// Why a quantity or a check could not be evaluated.
#[derive(Clone, Copy, Debug, PartialEq, Eq, Structural)]
pub enum DesignError {
    /// The quantity is not modelled for this shape or class.
    Unsupported,
    /// No catalog section has the given name.
    NotFound,
    /// An input is not physical (not positive), a divisor is zero, or a
    /// magnitude leaves the range of the fixed-point arithmetic.
    InvalidInput,
}

/// An optional value as a result: `InvalidInput` where it is absent.
pub open spec fn checked(o: Option<u128>) -> Result<u128, DesignError> {
    match o {
        Some(v) => Ok(v),
        None => Err(DesignError::InvalidInput),
    }
}

/// An optional value as a result: `InvalidInput` where it is absent.
pub fn checked_exec(o: Option<u128>) -> (r: Result<u128, DesignError>)
    ensures
        r == checked(o),
{
    match o {
        Some(v) => Ok(v),
        None => Err(DesignError::InvalidInput),
    }
}

/// The kind of an error met while reading or writing section data.
#[derive(Clone, Copy, Debug, PartialEq, Eq, Structural)]
pub enum EmsErrorKind {
    WriteError,
    FileNotFound,
    FieldNotFound,
    DataBaseErr,
}

/// An error met while reading or writing section data, with a message for
/// the user.
#[derive(Debug)]
pub struct EmsError {
    pub error_kind: EmsErrorKind,
    pub message: String,
}

impl EmsError {
    fn new(error_kind: EmsErrorKind, message: String) -> (r: Self)
        ensures
            r.error_kind == error_kind,
            r.message@ == message@,
    {
        EmsError { error_kind, message }
    }

    /// An error in writing data.
    pub fn write_error(message: String) -> (r: Self)
        ensures
            r.error_kind == EmsErrorKind::WriteError,
            r.message@ == message@,
    {
        Self::new(EmsErrorKind::WriteError, message)
    }

    /// A file that could not be found or read.
    pub fn file_not_found_error(message: String) -> (r: Self)
        ensures
            r.error_kind == EmsErrorKind::FileNotFound,
            r.message@ == message@,
    {
        Self::new(EmsErrorKind::FileNotFound, message)
    }

    /// An error in navigating or reading a table of section data.
    pub fn database_error(message: String) -> (r: Self)
        ensures
            r.error_kind == EmsErrorKind::DataBaseErr,
            r.message@ == message@,
    {
        Self::new(EmsErrorKind::DataBaseErr, message)
    }

    /// The message of the error.
    pub fn message(&self) -> (r: &String)
        ensures
            r@ == self.message@,
    {
        &self.message
    }
}

/// An error reported by a table of section data.
#[derive(Debug)]
pub struct DbError {
    pub message: String,
}

} // verus!
