//! What a command asks for, decided before any file is touched.
//!
//! The caller looks at the disk and hands in what it saw. The functions
//! here say whether the command may go on and what it has to do.

use vstd::prelude::*;
use vstd::string::*;
use crate::error::ArchiveError;
use crate::pattern::{glob_patterns, Source};
use crate::text::texts;

verus! {

/// What a creation command has to do.
pub ghost enum CreateModel {
    /// Write a tar stream whose entries the directives describe.
    Archive,
    /// Compress the first match of `pattern`, without a tar stream.
    Compress { pattern: Seq<char> },
}

/// What a creation command has to do.
#[derive(Debug)]
pub enum CreateRequest {
    /// Write a tar stream whose entries the directives describe.
    Archive,
    /// Compress the first match of the source, without a tar stream.
    Compress(Source),
}

impl View for CreateRequest {
    type V = CreateModel;

    open spec fn view(&self) -> CreateModel {
        match self {
            CreateRequest::Archive => CreateModel::Archive,
            CreateRequest::Compress(source) => CreateModel::Compress { pattern: source@ },
        }
    }
}

/// What an extraction command has to do.
#[derive(Clone, Copy, PartialEq, Eq, Debug, Structural)]
pub enum ExtractRequest {
    /// Unpack the tar stream into the destination directory.
    Unpack,
    /// Write the decompressed bytes to the destination, taken as a file.
    Decompress,
}

/// The request of a creation command.
///
/// - An archive that exists already is never overwritten.
/// - Otherwise, without `compression_only`, the directives are read one by
///   one as the archive is written, whatever their number.
/// - With `compression_only` there is exactly one token, a pattern that
///   compiles. No token at all leaves nothing to compress; more than one,
///   or one that does not compile, is malformed.
pub open spec fn create_request(
    archive_exists: bool,
    compression_only: bool,
    tokens: Seq<Seq<char>>,
    accepts: spec_fn(Seq<char>) -> bool,
) -> Result<CreateModel, ArchiveError> {
    if archive_exists {
        Err(ArchiveError::DestinationExists)
    } else if !compression_only {
        Ok(CreateModel::Archive)
    } else if tokens.len() == 0 {
        Err(ArchiveError::SourceNotFound)
    } else if tokens.len() == 1 && accepts(tokens[0]) {
        Ok(CreateModel::Compress { pattern: tokens[0] })
    } else {
        Err(ArchiveError::MalformedDirectives)
    }
}

/// The request of an extraction command. A destination that exists and is
/// no directory is never replaced.
pub open spec fn extract_request(
    destination_exists: bool,
    destination_is_dir: bool,
    compression_only: bool,
) -> Result<ExtractRequest, ArchiveError> {
    if destination_exists && !destination_is_dir {
        Err(ArchiveError::DestinationExists)
    } else if compression_only {
        Ok(ExtractRequest::Decompress)
    } else {
        Ok(ExtractRequest::Unpack)
    }
}

/// The model of a creation request or of its refusal.
pub open spec fn create_view(r: Result<CreateRequest, ArchiveError>) -> Result<
    CreateModel,
    ArchiveError,
> {
    match r {
        Ok(request) => Ok(request@),
        Err(e) => Err(e),
    }
}

/// Decides what a creation command has to do, given whether the archive
/// path is taken. To be called before the archive is created.
pub fn plan_create(archive_exists: bool, compression_only: bool, tokens: &Vec<String>) -> (r:
    Result<CreateRequest, ArchiveError>)
    ensures
        create_view(r) == create_request(
            archive_exists,
            compression_only,
            texts(tokens@),
            glob_patterns(),
        ),
        archive_exists ==> r matches Err(ArchiveError::DestinationExists),
        !archive_exists && compression_only && tokens@.len() > 1 ==> r matches Err(
            ArchiveError::MalformedDirectives,
        ),
{
    if archive_exists {
        Err(ArchiveError::DestinationExists)
    } else if !compression_only {
        Ok(CreateRequest::Archive)
    } else if tokens.len() == 0 {
        Err(ArchiveError::SourceNotFound)
    } else if tokens.len() == 1 {
        match Source::open(tokens[0].as_str()) {
            Ok(source) => Ok(CreateRequest::Compress(source)),
            Err(e) => Err(e),
        }
    } else {
        Err(ArchiveError::MalformedDirectives)
    }
}

/// Decides what an extraction command has to do, given what stands at the
/// destination.
pub fn plan_extract(destination_exists: bool, destination_is_dir: bool, compression_only: bool)
    -> (r: Result<ExtractRequest, ArchiveError>)
    ensures
        r == extract_request(destination_exists, destination_is_dir, compression_only),
{
    if destination_exists && !destination_is_dir {
        Err(ArchiveError::DestinationExists)
    } else if compression_only {
        Ok(ExtractRequest::Decompress)
    } else {
        Ok(ExtractRequest::Unpack)
    }
}

/// The file to compress: the first match of the source. A source without
/// match cannot be compressed.
pub fn first_match<P>(found: Option<P>) -> (r: Result<P, ArchiveError>)
    ensures
        r == match found {
            Some(path) => Ok::<P, ArchiveError>(path),
            None => Err(ArchiveError::SourceNotFound),
        },
{
    match found {
        Some(path) => Ok(path),
        None => Err(ArchiveError::SourceNotFound),
    }
}

} // verus!
