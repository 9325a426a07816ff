use vstd::prelude::*;

verus! {

/// Failures the remote service can report through the API client.
#[derive(Clone, Copy, PartialEq, Eq, Structural, Debug)]
pub enum ApiError {
    /// Credentials are missing, invalid or expired.
    Auth,
    /// Transport or remote failure; surfaced verbatim, never retried here.
    Network,
    /// The referenced entry or project does not exist remotely.
    NotFound,
}

/// Everything a command can fail with. A user-initiated cancellation is not
/// among these: it is a benign outcome, not an error.
#[derive(Clone, Copy, PartialEq, Eq, Structural, Debug)]
pub enum Error {
    /// Credentials are missing, invalid or expired.
    Auth,
    /// Transport or remote failure.
    Network,
    /// The referenced entry or project does not exist remotely.
    NotFound,
    /// Required input was absent and the command was not interactive.
    MissingArgument,
    /// The picker mechanism itself failed, as opposed to the user cancelling.
    Picker,
    /// The requested working directory does not exist.
    DirectoryNotFound,
    /// The requested working directory is not a directory.
    NotADirectory,
}

/// How each remote failure surfaces to the user.
pub open spec fn error_of_api_spec(e: ApiError) -> Error {
    match e {
        ApiError::Auth => Error::Auth,
        ApiError::Network => Error::Network,
        ApiError::NotFound => Error::NotFound,
    }
}

/// Maps a remote failure to the command-level error it surfaces as.
pub fn error_of_api(e: ApiError) -> (r: Error)
    ensures
        r == error_of_api_spec(e),
{
    match e {
        ApiError::Auth => Error::Auth,
        ApiError::Network => Error::Network,
        ApiError::NotFound => Error::NotFound,
    }
}

impl Error {
    /// What each error means, in spec form.
    pub open spec fn message_spec(self) -> Seq<char> {
        match self {
            Error::Auth => "invalid or missing credentials; run the auth command with your API token"@,
            Error::Network => "the remote service could not be reached or failed"@,
            Error::NotFound => "no matching entry or project exists"@,
            Error::MissingArgument => "a description or project is required when not running interactively"@,
            Error::Picker => "the interactive picker failed"@,
            Error::DirectoryNotFound => "the requested directory does not exist"@,
            Error::NotADirectory => "the requested path is not a directory"@,
        }
    }

    /// The text printed for this error.
    pub fn message(&self) -> (r: &'static str)
        ensures
            r@ == self.message_spec(),
    {
        match self {
            Error::Auth => "invalid or missing credentials; run the auth command with your API token",
            Error::Network => "the remote service could not be reached or failed",
            Error::NotFound => "no matching entry or project exists",
            Error::MissingArgument => "a description or project is required when not running interactively",
            Error::Picker => "the interactive picker failed",
            Error::DirectoryNotFound => "the requested directory does not exist",
            Error::NotADirectory => "the requested path is not a directory",
        }
    }
}

/// Which error, if any, the `--directory` flag fails with: the chosen working
/// directory must exist and must be a directory.
pub open spec fn directory_check_spec(exists: bool, is_dir: bool) -> Result<(), Error> {
    if !exists {
        Err(Error::DirectoryNotFound)
    } else if !is_dir {
        Err(Error::NotADirectory)
    } else {
        Ok(())
    }
}

/// The checks behind the `--directory` flag. The caller reports what the file
/// system says; this decides which error, if any, the command fails with.
pub fn check_directory(exists: bool, is_dir: bool) -> (r: Result<(), Error>)
    ensures
        r == directory_check_spec(exists, is_dir),
{
    if !exists {
        Err(Error::DirectoryNotFound)
    } else if !is_dir {
        Err(Error::NotADirectory)
    } else {
        Ok(())
    }
}

} // verus!
