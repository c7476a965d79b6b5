//! The codec of an archive, chosen by an explicit format name or by the
//! extension of the archive's path.

use vstd::prelude::*;
use vstd::string::*;
use crate::error::ArchiveError;
use crate::path::{file_name, name_of, PathStyle};
use crate::text::{last_index_of, lowered, spells, spells_word, tail_after_last, text_of};

verus! {

/// How the bytes of an archive are compressed.
#[derive(Clone, Copy, PartialEq, Eq, Debug, Structural)]
pub enum Codec {
    /// No compression: a plain tar stream.
    Tar,
    /// The gzip framing of deflate.
    Gzip,
    /// The xz framing of LZMA2.
    Xz,
    /// Zstandard.
    Zstd,
}

impl Codec {
    /// The name under which the table knows the codec.
    pub open spec fn canonical_name(self) -> Seq<char> {
        match self {
            Codec::Tar => "tar"@,
            Codec::Gzip => "gzip"@,
            Codec::Xz => "xz"@,
            Codec::Zstd => "zstd"@,
        }
    }

    /// The level at which the archiver runs each compressor. A plain tar
    /// stream has none.
    pub open spec fn preset(self) -> Option<u32> {
        match self {
            Codec::Tar => None,
            Codec::Gzip => Some(9u32),
            Codec::Xz => Some(9u32),
            Codec::Zstd => Some(21u32),
        }
    }

    /// The name under which the table knows the codec.
    pub fn name(&self) -> (r: &'static str)
        ensures
            r@ == self.canonical_name(),
    {
        match self {
            Codec::Tar => "tar",
            Codec::Gzip => "gzip",
            Codec::Xz => "xz",
            Codec::Zstd => "zstd",
        }
    }

    /// The level to hand to the compressor, if the codec compresses.
    pub fn level(&self) -> (r: Option<u32>)
        ensures
            r == self.preset(),
    {
        match self {
            Codec::Tar => None,
            Codec::Gzip => Some(9),
            Codec::Xz => Some(9),
            Codec::Zstd => Some(21),
        }
    }
}

/// The codec that a format name stands for, if any. Names are compared
/// without regard to the case of ASCII letters.
pub open spec fn codec_named(name: Seq<char>) -> Option<Codec> {
    if spells(name, "xz"@) {
        Some(Codec::Xz)
    } else if spells(name, "gzip"@) || spells(name, "gz"@) || spells(name, "tgz"@)
        || spells(name, "z"@) {
        Some(Codec::Gzip)
    } else if spells(name, "tar"@) {
        Some(Codec::Tar)
    } else if spells(name, "zst"@) || spells(name, "zstd"@) {
        Some(Codec::Zstd)
    } else {
        None
    }
}

/// The extension of a path: the characters behind the last `.` of its
/// name. A path without name, or with a name without `.`, has no
/// extension.
pub open spec fn extension_of(path: Seq<char>, style: PathStyle) -> Option<Seq<char>> {
    match name_of(path, style) {
        Some(name) => match name.index_of_last('.') {
            Some(dot) => Some(name.skip(dot + 1)),
            None => None,
        },
        None => None,
    }
}

/// The codec for an explicit format name and an extension: the name
/// decides where there is one, the extension otherwise.
pub open spec fn codec_for(explicit: Option<Seq<char>>, extension: Option<Seq<char>>) -> Result<
    Codec,
    ArchiveError,
> {
    let name = if explicit is Some {
        explicit
    } else {
        extension
    };
    match name {
        Some(n) => match codec_named(n) {
            Some(codec) => Ok(codec),
            None => Err(ArchiveError::UnknownFormat),
        },
        None => Err(ArchiveError::UnknownFormat),
    }
}

/// Each codec is found again under its own name.
pub proof fn canonical_name_names_codec(codec: Codec)
    ensures
        codec_named(codec.canonical_name()) == Some(codec),
{
    reveal_strlit("xz");
    reveal_strlit("gzip");
    reveal_strlit("gz");
    reveal_strlit("tgz");
    reveal_strlit("z");
    reveal_strlit("tar");
    reveal_strlit("zst");
    reveal_strlit("zstd");
    let name = codec.canonical_name();
    assert(lowered(name) =~= name);
    assert("gzip"@[0] != "xz"@[0]);
    assert("tar"@[0] != "xz"@[0]);
    assert("tar"@[0] != "gzip"@[0]);
    assert("tar"@[0] != "gz"@[0]);
    assert("tar"@[1] != "tgz"@[1]);
    assert("tar"@[0] != "z"@[0]);
    assert("zstd"@[0] != "xz"@[0]);
    assert("zstd"@[0] != "gzip"@[0]);
    assert("zstd"@[0] != "gz"@[0]);
    assert("zstd"@[0] != "tgz"@[0]);
    assert("zstd"@[0] != "tar"@[0]);
}

/// Looks a format name up in the table of codecs.
pub fn codec_by_name(name: &str) -> (r: Option<Codec>)
    ensures
        r == codec_named(name@),
{
    if spells_word(name, "xz") {
        Some(Codec::Xz)
    } else if spells_word(name, "gzip") || spells_word(name, "gz") || spells_word(name, "tgz")
        || spells_word(name, "z") {
        Some(Codec::Gzip)
    } else if spells_word(name, "tar") {
        Some(Codec::Tar)
    } else if spells_word(name, "zst") || spells_word(name, "zstd") {
        Some(Codec::Zstd)
    } else {
        None
    }
}

/// The extension of `path`, without the dot.
pub fn extension<'a>(path: &'a str, style: PathStyle) -> (r: Option<&'a str>)
    ensures
        text_of(r) == extension_of(path@, style),
{
    match file_name(path, style) {
        Some(name) => match last_index_of(name, '.') {
            Some(_) => Some(tail_after_last(name, '.')),
            None => None,
        },
        None => None,
    }
}

/// Chooses the codec of the archive at `path`. An explicit `format_type`
/// wins; without one the extension of `path` decides. A name that the
/// table does not hold, or a path without extension, is an unknown format.
pub fn check_format_type(format_type: Option<&str>, path: &str, style: PathStyle) -> (r: Result<
    Codec,
    ArchiveError,
>)
    ensures
        r == codec_for(text_of(format_type), extension_of(path@, style)),
{
    let name = match format_type {
        Some(f) => Some(f),
        None => extension(path, style),
    };
    match name {
        Some(n) => match codec_by_name(n) {
            Some(codec) => Ok(codec),
            None => Err(ArchiveError::UnknownFormat),
        },
        None => Err(ArchiveError::UnknownFormat),
    }
}

} // verus!
