use vstd::prelude::*;

verus! {

/// Failure kinds returned by every fallible operation of the library.
#[derive(Debug, Clone, Copy, PartialEq, Eq, Structural)]
pub enum Error {
    /// The native interface reported an incompatible version.
    VersionError,
    /// Enclave initialization failed.
    InitError,
    /// Process creation or launch failed.
    CreateError,
    /// Reserved for execution failures distinct from creation.
    ExecError,
    /// Signal delivery failed.
    SignalError,
    /// The argument list is empty.
    ArgumentsError,
    /// A text value holds an embedded null byte.
    CStringError,
}

/// The text that describes an error.
pub open spec fn error_text(e: Error) -> Seq<char> {
    match e {
        Error::VersionError => "PAL API version mismatch"@,
        Error::InitError => "Initialization error"@,
        Error::CreateError => "Process creation error"@,
        Error::ExecError => "Process execution error"@,
        Error::SignalError => "Process signaling error"@,
        Error::ArgumentsError => "Arguments list error"@,
        Error::CStringError => "String contains a bare \\0 character"@,
    }
}

impl Error {
    /// A human-readable description of the error.
    pub fn message(&self) -> (r: &'static str)
        ensures
            r@ == error_text(*self),
    {
        match self {
            Error::VersionError => "PAL API version mismatch",
            Error::InitError => "Initialization error",
            Error::CreateError => "Process creation error",
            Error::ExecError => "Process execution error",
            Error::SignalError => "Process signaling error",
            Error::ArgumentsError => "Arguments list error",
            Error::CStringError => "String contains a bare \\0 character",
        }
    }
}

} // verus!
