use star::codec::{check_format_type, codec_by_name, extension, Codec};
use star::error::ArchiveError;
use star::path::PathStyle;

#[test]
fn every_name_of_the_table_is_known() {
    assert_eq!(codec_by_name("xz"), Some(Codec::Xz));
    assert_eq!(codec_by_name("gzip"), Some(Codec::Gzip));
    assert_eq!(codec_by_name("gz"), Some(Codec::Gzip));
    assert_eq!(codec_by_name("tgz"), Some(Codec::Gzip));
    assert_eq!(codec_by_name("z"), Some(Codec::Gzip));
    assert_eq!(codec_by_name("tar"), Some(Codec::Tar));
    assert_eq!(codec_by_name("zst"), Some(Codec::Zstd));
    assert_eq!(codec_by_name("zstd"), Some(Codec::Zstd));
}

#[test]
fn names_are_matched_in_any_case() {
    assert_eq!(codec_by_name("XZ"), Some(Codec::Xz));
    assert_eq!(codec_by_name("GZip"), Some(Codec::Gzip));
    assert_eq!(codec_by_name("Z"), Some(Codec::Gzip));
    assert_eq!(codec_by_name("TgZ"), Some(Codec::Gzip));
    assert_eq!(codec_by_name("TAR"), Some(Codec::Tar));
    assert_eq!(codec_by_name("zSt"), Some(Codec::Zstd));
    assert_eq!(codec_by_name("ZSTD"), Some(Codec::Zstd));
}

#[test]
fn other_names_are_unknown() {
    assert_eq!(codec_by_name(""), None);
    assert_eq!(codec_by_name("zip"), None);
    assert_eq!(codec_by_name("bz2"), None);
    assert_eq!(codec_by_name("xzz"), None);
    assert_eq!(codec_by_name("x"), None);
    assert_eq!(codec_by_name(" xz"), None);
    assert_eq!(codec_by_name(".xz"), None);
    assert_eq!(codec_by_name("gzi"), None);
    assert_eq!(codec_by_name("tarr"), None);
    assert_eq!(codec_by_name("zs"), None);
    assert_eq!(codec_by_name("zstdd"), None);
}

#[test]
fn letters_outside_ascii_are_not_folded() {
    assert_eq!(codec_by_name("\u{ff38}\u{ff3a}"), None);
    assert_eq!(codec_by_name("x\u{17f}"), None);
    assert_eq!(codec_by_name("tar\u{e9}"), None);
}

#[test]
fn explicit_format_decides() {
    assert_eq!(check_format_type(Some("xz"), "archive.gz", PathStyle::Unix), Ok(Codec::Xz));
    assert_eq!(check_format_type(Some("TAR"), "archive.zst", PathStyle::Unix), Ok(Codec::Tar));
    assert_eq!(check_format_type(Some("gz"), "archive", PathStyle::Unix), Ok(Codec::Gzip));
    assert_eq!(check_format_type(Some("zstd"), "", PathStyle::Unix), Ok(Codec::Zstd));
}

#[test]
fn unknown_explicit_format_is_not_rescued_by_the_extension() {
    assert_eq!(
        check_format_type(Some("rar"), "archive.xz", PathStyle::Unix),
        Err(ArchiveError::UnknownFormat)
    );
    assert_eq!(
        check_format_type(Some(""), "archive.xz", PathStyle::Unix),
        Err(ArchiveError::UnknownFormat)
    );
}

#[test]
fn extension_decides_without_explicit_format() {
    assert_eq!(check_format_type(None, "foo.xz", PathStyle::Unix), Ok(Codec::Xz));
    assert_eq!(check_format_type(None, "foo.gzip", PathStyle::Unix), Ok(Codec::Gzip));
    assert_eq!(check_format_type(None, "foo.gz", PathStyle::Unix), Ok(Codec::Gzip));
    assert_eq!(check_format_type(None, "foo.tgz", PathStyle::Unix), Ok(Codec::Gzip));
    assert_eq!(check_format_type(None, "foo.z", PathStyle::Unix), Ok(Codec::Gzip));
    assert_eq!(check_format_type(None, "foo.Z", PathStyle::Unix), Ok(Codec::Gzip));
    assert_eq!(check_format_type(None, "foo.tar", PathStyle::Unix), Ok(Codec::Tar));
    assert_eq!(check_format_type(None, "foo.zst", PathStyle::Unix), Ok(Codec::Zstd));
    assert_eq!(check_format_type(None, "foo.zstd", PathStyle::Unix), Ok(Codec::Zstd));
}

#[test]
fn only_the_last_extension_counts() {
    assert_eq!(check_format_type(None, "backup.tar.gz", PathStyle::Unix), Ok(Codec::Gzip));
    assert_eq!(check_format_type(None, "backup.xz.tar", PathStyle::Unix), Ok(Codec::Tar));
    assert_eq!(check_format_type(None, "backup.tar.bak", PathStyle::Unix), Err(ArchiveError::UnknownFormat));
}

#[test]
fn extension_is_taken_from_the_name() {
    assert_eq!(check_format_type(None, "some.dir/backup.TAR", PathStyle::Unix), Ok(Codec::Tar));
    assert_eq!(check_format_type(None, "/var/tmp/a.b/c.zst", PathStyle::Unix), Ok(Codec::Zstd));
    assert_eq!(
        check_format_type(None, "dir.xz/archive", PathStyle::Unix),
        Err(ArchiveError::UnknownFormat)
    );
}

#[test]
fn trailing_separators_and_dots_do_not_hide_the_name() {
    assert_eq!(check_format_type(None, "dir.xz/", PathStyle::Unix), Ok(Codec::Xz));
    assert_eq!(check_format_type(None, "a/b.tar//", PathStyle::Unix), Ok(Codec::Tar));
    assert_eq!(check_format_type(None, "a/b.gz/.", PathStyle::Unix), Ok(Codec::Gzip));
    assert_eq!(check_format_type(None, "a/b.zst/./", PathStyle::Unix), Ok(Codec::Zstd));
    assert_eq!(extension("a.xz/", PathStyle::Unix), Some("xz"));
}

#[test]
fn a_path_without_name_has_no_format() {
    for path in ["", "/", ".", "..", "./", "a.xz/..", "//", "/."] {
        assert_eq!(extension(path, PathStyle::Unix), None);
        assert_eq!(
            check_format_type(None, path, PathStyle::Unix),
            Err(ArchiveError::UnknownFormat)
        );
    }
}

#[test]
fn missing_or_unknown_extension_is_unknown_format() {
    assert_eq!(check_format_type(None, "archive", PathStyle::Unix), Err(ArchiveError::UnknownFormat));
    assert_eq!(check_format_type(None, "", PathStyle::Unix), Err(ArchiveError::UnknownFormat));
    assert_eq!(check_format_type(None, "archive.", PathStyle::Unix), Err(ArchiveError::UnknownFormat));
    assert_eq!(check_format_type(None, "archive.zip", PathStyle::Unix), Err(ArchiveError::UnknownFormat));
    assert_eq!(check_format_type(None, "xz", PathStyle::Unix), Err(ArchiveError::UnknownFormat));
}

#[test]
fn a_name_that_starts_with_its_dot_has_an_extension() {
    assert_eq!(extension(".xz", PathStyle::Unix), Some("xz"));
    assert_eq!(check_format_type(None, ".xz", PathStyle::Unix), Ok(Codec::Xz));
    assert_eq!(check_format_type(None, "dir/.tar", PathStyle::Unix), Ok(Codec::Tar));
}

#[test]
fn extension_follows_the_last_dot_of_the_name() {
    assert_eq!(extension("a/b.c.d", PathStyle::Unix), Some("d"));
    assert_eq!(extension("a.b/c", PathStyle::Unix), None);
    assert_eq!(extension("a.b/c.", PathStyle::Unix), Some(""));
    assert_eq!(extension("", PathStyle::Unix), None);
    assert_eq!(extension("a.b\\c", PathStyle::Unix), Some("b\\c"));
    assert_eq!(extension("a.b\\c", PathStyle::Windows), None);
    assert_eq!(extension("a\\b.c", PathStyle::Windows), Some("c"));
    assert_eq!(extension("a/b\\c.tar", PathStyle::Windows), Some("tar"));
    assert_eq!(extension("a\\b/c.tar", PathStyle::Windows), Some("tar"));
    assert_eq!(extension("\u{e9}t\u{e9}.\u{fc}ber", PathStyle::Unix), Some("\u{fc}ber"));
}

#[test]
fn backslash_separates_only_in_the_windows_style() {
    assert_eq!(check_format_type(None, "a\\b.xz", PathStyle::Unix), Ok(Codec::Xz));
    assert_eq!(check_format_type(None, "a\\b.xz", PathStyle::Windows), Ok(Codec::Xz));
    assert_eq!(
        check_format_type(None, "a.xz\\b", PathStyle::Unix),
        Err(ArchiveError::UnknownFormat)
    );
    assert_eq!(
        check_format_type(None, "a.xz\\b", PathStyle::Windows),
        Err(ArchiveError::UnknownFormat)
    );
    assert_eq!(
        check_format_type(None, "a.xz\\", PathStyle::Unix),
        Err(ArchiveError::UnknownFormat)
    );
    assert_eq!(check_format_type(None, "a.xz\\", PathStyle::Windows), Ok(Codec::Xz));
    assert_eq!(check_format_type(Some("tar"), "a.xz\\", PathStyle::Windows), Ok(Codec::Tar));
}

#[test]
fn each_codec_is_found_under_its_name() {
    assert_eq!(Codec::Tar.name(), "tar");
    assert_eq!(Codec::Gzip.name(), "gzip");
    assert_eq!(Codec::Xz.name(), "xz");
    assert_eq!(Codec::Zstd.name(), "zstd");
    for codec in [Codec::Tar, Codec::Gzip, Codec::Xz, Codec::Zstd] {
        assert_eq!(codec_by_name(codec.name()), Some(codec));
        assert_eq!(check_format_type(Some(codec.name()), "x", PathStyle::Unix), Ok(codec));
    }
}

#[test]
fn each_codec_has_its_level() {
    assert_eq!(Codec::Tar.level(), None);
    assert_eq!(Codec::Gzip.level(), Some(9));
    assert_eq!(Codec::Xz.level(), Some(9));
    assert_eq!(Codec::Zstd.level(), Some(21));
}

#[test]
fn errors_have_diagnostics() {
    assert_eq!(ArchiveError::UnknownFormat.message(), "unknown format");
    assert_eq!(ArchiveError::DestinationExists.message(), "destination exists");
    assert_eq!(ArchiveError::MalformedDirectives.message(), "malformed directives");
    assert_eq!(ArchiveError::SourceNotFound.message(), "source not found");
}
