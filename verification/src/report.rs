//! The lines that tell the user what was done.

use vstd::prelude::*;
use vstd::string::*;

verus! {

/// What kind of source an entry was made from.
#[derive(Clone, Copy, PartialEq, Eq, Debug, Structural)]
pub enum EntryKind {
    /// A single file.
    File,
    /// A directory with all that is below it.
    Dir,
}

impl EntryKind {
    /// The word that a progress line starts with.
    pub open spec fn label(self) -> Seq<char> {
        match self {
            EntryKind::File => "file"@,
            EntryKind::Dir => "dir"@,
        }
    }
}

/// The text of a progress line: the kind, the source and the entry name,
/// as in `file a.txt to lib/a.txt`.
pub open spec fn progress_text(kind: EntryKind, source: Seq<char>, entry: Seq<char>) -> Seq<char> {
    kind.label() + " "@ + source + " to "@ + entry
}

/// The text of the line that ends a creation.
pub open spec fn created_text(archive: Seq<char>) -> Seq<char> {
    archive + " created."@
}

/// The progress line for one source that went into the archive.
pub fn progress_line(kind: EntryKind, source: &str, entry: &str) -> (line: String)
    ensures
        line@ == progress_text(kind, source@, entry@),
{
    let mut line = match kind {
        EntryKind::File => String::from_str("file"),
        EntryKind::Dir => String::from_str("dir"),
    };
    line.append(" ");
    line.append(source);
    line.append(" to ");
    line.append(entry);
    line
}

/// The line that ends a creation.
pub fn created_line(archive: &str) -> (line: String)
    ensures
        line@ == created_text(archive@),
{
    let mut line = String::from_str(archive);
    line.append(" created.");
    line
}

} // verus!
