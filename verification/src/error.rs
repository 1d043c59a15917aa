use vstd::prelude::*;

verus! {

/// Every way an invocation of the pipeline can fail.
///
/// - `ConfigError`: the catalog produced a malformed download URL; a bug in
///   the catalog itself, not a user error.
/// - `UnknownTool`: the requested identifier is not in the catalog.
/// - `InvalidVersion`: the requested version is not a valid semantic version;
///   rejected before any I/O.
/// - `VersionNotAvailable`: the download location answered HTTP 404.
/// - `UnexpectedStatus`: the download location answered some other non-200
///   status, carried verbatim.
/// - `MissingLength`: the response carried no usable `Content-Length` header.
/// - `MissingContentType`: the response carried no `Content-Type` header.
/// - `EmptyArchive`: the artifact was a zip archive with no entry to install.
/// - `Io`: a local filesystem operation failed.
#[derive(Clone, Copy, Debug, PartialEq, Eq, Structural)]
pub enum Error {
    ConfigError,
    UnknownTool,
    InvalidVersion,
    VersionNotAvailable,
    UnexpectedStatus(u16),
    MissingLength,
    MissingContentType,
    EmptyArchive,
    Io,
}

impl Error {
    /// A human-readable, per-kind message. Distinct kinds give distinct
    /// messages; the status code of `UnexpectedStatus` is reported separately
    /// by the caller.
    pub fn message(&self) -> (r: &'static str)
        ensures
            r@ == self.spec_message(),
    {
        match self {
            Error::ConfigError => "the catalog produced a malformed download URL",
            Error::UnknownTool => "invalid tool",
            Error::InvalidVersion => "invalid version",
            Error::VersionNotAvailable => "tool version not available for download",
            Error::UnexpectedStatus(_) => "received a non-200 response when downloading the tool",
            Error::MissingLength => "no usable Content-Length header",
            Error::MissingContentType => "no Content-Type header",
            Error::EmptyArchive => "the downloaded archive holds no file",
            Error::Io => "io error",
        }
    }

    pub open spec fn spec_message(self) -> Seq<char> {
        match self {
            Error::ConfigError => "the catalog produced a malformed download URL"@,
            Error::UnknownTool => "invalid tool"@,
            Error::InvalidVersion => "invalid version"@,
            Error::VersionNotAvailable => "tool version not available for download"@,
            Error::UnexpectedStatus(_) => "received a non-200 response when downloading the tool"@,
            Error::MissingLength => "no usable Content-Length header"@,
            Error::MissingContentType => "no Content-Type header"@,
            Error::EmptyArchive => "the downloaded archive holds no file"@,
            Error::Io => "io error"@,
        }
    }
}

} // verus!
