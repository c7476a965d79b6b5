//! Paths as text: separators, segments, the name of a path, whether a
//! rename target names a directory, and the name under which a source
//! enters an archive.
//!
//! All of it is syntax. No function here asks whether a path exists. A
//! path is cut at its separators and at nothing else: a drive prefix is
//! part of the segment it stands in.

use vstd::prelude::*;
use vstd::string::*;
use crate::text::{after_last, tail_after_last, text_of};

verus! {

/// Which characters separate the segments of a path.
#[derive(Clone, Copy, PartialEq, Eq, Debug, Structural)]
pub enum PathStyle {
    /// Only `/` separates.
    Unix,
    /// `/` and `\` both separate.
    Windows,
}

impl PathStyle {
    /// Whether `c` separates segments in this style.
    pub open spec fn separates(self, c: char) -> bool {
        c == '/' || (self == PathStyle::Windows && c == '\\')
    }

    /// Whether `c` separates segments in this style.
    pub fn is_separator(&self, c: char) -> (r: bool)
        ensures
            r == self.separates(c),
    {
        match self {
            PathStyle::Unix => c == '/',
            PathStyle::Windows => c == '/' || c == '\\',
        }
    }
}

/// The final segment of a path: what follows its last separator. A path
/// that ends in a separator has the empty final segment.
pub open spec fn final_segment(path: Seq<char>, style: PathStyle) -> Seq<char> {
    match style {
        PathStyle::Unix => after_last(path, '/'),
        PathStyle::Windows => after_last(after_last(path, '/'), '\\'),
    }
}

/// Whether a segment names nothing: it is empty, as between two
/// separators or behind a trailing one, or it is `.`.
pub open spec fn is_blank(segment: Seq<char>) -> bool {
    segment.len() == 0 || segment == seq!['.']
}

/// The name of a path: its last segment that is neither empty nor `.`.
/// A path whose last such segment is `..`, or which has none, has no name.
/// So `a/b`, `a/b/` and `a/b/.` are all named `b`, and `..`, `a/..`, `/`,
/// `.` and the empty path have no name.
pub open spec fn name_of(path: Seq<char>, style: PathStyle) -> Option<Seq<char>>
    decreases path.len(),
{
    let segment = final_segment(path, style);
    if !is_blank(segment) {
        if segment == seq!['.', '.'] {
            None
        } else {
            Some(segment)
        }
    } else if segment.len() < path.len() {
        name_of(path.take(path.len() - segment.len() - 1), style)
    } else {
        None
    }
}

/// Whether a rename target names a directory rather than a file: it is
/// empty or ends in a separator.
pub open spec fn is_directory_like(target: Seq<char>, style: PathStyle) -> bool {
    target.len() == 0 || style.separates(target.last())
}

/// Whether an entry name can be made for `source`. Under a destination
/// that names a directory the source needs a name of its own; in every
/// other case a name can be made.
pub open spec fn can_name_entry(
    source: Seq<char>,
    destination: Option<Seq<char>>,
    style: PathStyle,
) -> bool {
    match destination {
        Some(target) => is_directory_like(target, style) ==> name_of(source, style) is Some,
        None => true,
    }
}

/// The name of the archive entry for `source`. Without a destination the
/// source path is the name. A destination that names a directory takes the
/// source under the source's own name; any other destination is the name.
pub open spec fn entry_name_of(
    source: Seq<char>,
    destination: Option<Seq<char>>,
    style: PathStyle,
) -> Seq<char>
    recommends
        can_name_entry(source, destination, style),
{
    match destination {
        None => source,
        Some(target) => if is_directory_like(target, style) {
            target + name_of(source, style).unwrap()
        } else {
            target
        },
    }
}

/// The final segment is the end of the path, holds no separator, and what
/// stands before it is empty or ends in a separator.
pub proof fn final_segment_follows_last_separator(path: Seq<char>, style: PathStyle)
    ensures
        ({
            let segment = final_segment(path, style);
            let cut = path.len() - segment.len();
            &&& 0 <= cut <= path.len()
            &&& segment == path.skip(cut)
            &&& forall|i: int| 0 <= i < segment.len() ==> !style.separates(#[trigger] segment[i])
            &&& cut == 0 || style.separates(path[cut - 1])
        }),
{
    path.index_of_last_ensures('/');
    let unix = after_last(path, '/');
    assert(forall|i: int| 0 <= i < unix.len() ==> unix[i] != '/');
    match style {
        PathStyle::Unix => {},
        PathStyle::Windows => {
            unix.index_of_last_ensures('\\');
            let segment = after_last(unix, '\\');
            let cut = path.len() - segment.len();
            assert(segment =~= path.skip(cut));
            assert(forall|i: int| 0 <= i < segment.len() ==> segment[i] == unix[i + (unix.len() - segment.len())]);
        },
    }
}

/// A name is one segment: it holds no separator and is neither empty nor
/// `.` nor `..`.
pub proof fn name_is_one_segment(path: Seq<char>, style: PathStyle)
    ensures
        name_of(path, style) matches Some(name) ==> {
            &&& name.len() > 0
            &&& name != seq!['.']
            &&& name != seq!['.', '.']
            &&& forall|i: int| 0 <= i < name.len() ==> !style.separates(#[trigger] name[i])
        },
    decreases path.len(),
{
    let segment = final_segment(path, style);
    final_segment_follows_last_separator(path, style);
    if is_blank(segment) && segment.len() < path.len() {
        name_is_one_segment(path.take(path.len() - segment.len() - 1), style);
    }
}

/// The final segment of `path`.
pub fn last_segment<'a>(path: &'a str, style: PathStyle) -> (r: &'a str)
    ensures
        r@ == final_segment(path@, style),
{
    match style {
        PathStyle::Unix => tail_after_last(path, '/'),
        PathStyle::Windows => tail_after_last(tail_after_last(path, '/'), '\\'),
    }
}

/// The name of `path`, if it has one.
pub fn file_name<'a>(path: &'a str, style: PathStyle) -> (r: Option<&'a str>)
    ensures
        text_of(r) == name_of(path@, style),
{
    let mut rest: &'a str = path;
    loop
        invariant
            name_of(rest@, style) == name_of(path@, style),
        decreases rest@.len(),
    {
        let segment = last_segment(rest, style);
        let held: usize = segment.unicode_len();
        let whole: usize = rest.unicode_len();
        proof {
            final_segment_follows_last_separator(rest@, style);
        }
        let dot = held == 1 && segment.get_char(0) == '.';
        if held != 0 && !dot {
            let dots = held == 2 && segment.get_char(0) == '.' && segment.get_char(1) == '.';
            assert(dots == (segment@ =~= seq!['.', '.']));
            assert(!(segment@ =~= seq!['.']));
            return if dots {
                None
            } else {
                Some(segment)
            };
        }
        assert(dot == (segment@ =~= seq!['.']));
        if held < whole {
            let front = rest.substring_char(0, whole - held - 1);
            assert(front@ =~= rest@.take(whole - held - 1));
            rest = front;
        } else {
            return None;
        }
    }
}

/// Whether the rename target `path` names a directory. This looks at the
/// text of the path alone.
pub fn target_is_dir(path: &str, style: PathStyle) -> (r: bool)
    ensures
        r == is_directory_like(path@, style),
{
    let n: usize = path.unicode_len();
    if n == 0 {
        true
    } else {
        style.is_separator(path.get_char(n - 1))
    }
}

/// Whether an entry name can be made for `source`: to be asked before
/// `entry_name`.
pub fn names_entry(source: &str, destination: Option<&str>, style: PathStyle) -> (r: bool)
    ensures
        r == can_name_entry(source@, text_of(destination), style),
{
    match destination {
        None => true,
        Some(target) => !target_is_dir(target, style) || file_name(source, style).is_some(),
    }
}

/// The name under which `source` enters the archive. A source without a
/// name of its own cannot go under a directory: no name is made up for it.
pub fn entry_name(source: &str, destination: Option<&str>, style: PathStyle) -> (r: String)
    requires
        can_name_entry(source@, text_of(destination), style),
    ensures
        r@ == entry_name_of(source@, text_of(destination), style),
{
    match destination {
        None => String::from_str(source),
        Some(target) => {
            let mut name = String::from_str(target);
            if target_is_dir(target, style) {
                match file_name(source, style) {
                    Some(own) => {
                        name.append(own);
                    },
                    None => {},
                }
            }
            name
        },
    }
}

} // verus!
