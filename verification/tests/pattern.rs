use star::error::ArchiveError;
use star::pattern::Source;
use std::path::PathBuf;

#[test]
fn compiled_source_keeps_its_pattern() {
    let source = Source::open("src/**/*.rs").unwrap();
    assert_eq!(source.pattern(), "src/**/*.rs");
}

#[test]
fn wildcards_and_ranges_compile() {
    assert!(Source::open("*").is_ok());
    assert!(Source::open("a?c").is_ok());
    assert!(Source::open("[a-z].txt").is_ok());
    assert!(Source::open("[!a].txt").is_ok());
    assert!(Source::open("**/*.dll").is_ok());
    assert!(Source::open("").is_ok());
}

#[test]
fn broken_patterns_are_malformed() {
    assert_eq!(Source::open("***").err(), Some(ArchiveError::MalformedDirectives));
    assert_eq!(Source::open("a**").err(), Some(ArchiveError::MalformedDirectives));
    assert_eq!(Source::open("**a").err(), Some(ArchiveError::MalformedDirectives));
    assert_eq!(Source::open("[").err(), Some(ArchiveError::MalformedDirectives));
    assert_eq!(Source::open("[a/b]").err(), Some(ArchiveError::MalformedDirectives));
}

#[test]
fn stream_yields_the_matches_of_its_pattern() {
    let mut stream = Source::open("/").unwrap().into_stream();
    let first = stream.next().unwrap().unwrap();
    assert_eq!(first, PathBuf::from("/"));
    assert!(stream.next().is_none());
}

#[test]
fn stream_of_a_pattern_without_match_is_empty() {
    let mut stream = Source::open("/no-such-directory-7f3a/*.nothing").unwrap().into_stream();
    assert!(stream.next().is_none());
}
