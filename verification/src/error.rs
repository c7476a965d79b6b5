//! The failures that the library itself detects.

use vstd::prelude::*;
use vstd::string::*;

verus! {

/// Why a request was refused before any byte was read or written.
#[derive(Clone, Copy, PartialEq, Eq, Debug, Structural)]
pub enum ArchiveError {
    /// Neither the explicit format nor the file extension names a codec.
    UnknownFormat,
    /// The archive to create exists already, or the place to extract to is
    /// taken by something that is not a directory.
    DestinationExists,
    /// The directives cannot be read as a request.
    MalformedDirectives,
    /// A source was required and none was found.
    SourceNotFound,
}

impl ArchiveError {
    /// The diagnostic for each error, as a sequence of characters.
    pub open spec fn diagnostic(self) -> Seq<char> {
        match self {
            ArchiveError::UnknownFormat => "unknown format"@,
            ArchiveError::DestinationExists => "destination exists"@,
            ArchiveError::MalformedDirectives => "malformed directives"@,
            ArchiveError::SourceNotFound => "source not found"@,
        }
    }

    /// A short diagnostic for the error.
    pub fn message(&self) -> (text: String)
        ensures
            text@ == self.diagnostic(),
    {
        match self {
            ArchiveError::UnknownFormat => String::from_str("unknown format"),
            ArchiveError::DestinationExists => String::from_str("destination exists"),
            ArchiveError::MalformedDirectives => String::from_str("malformed directives"),
            ArchiveError::SourceNotFound => String::from_str("source not found"),
        }
    }
}

} // verus!
