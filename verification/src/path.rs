//! Paths of files, as the system's bytes.

use vstd::prelude::*;
use vstd::utf8::{decode_utf8, encode_utf8, valid_utf8};

use crate::text::{append_bytes, lossy_text, utf8_text};
#[allow(unused_imports)]
use crate::text::shown;

verus! {

/// The byte between the segments of a path.
pub const SEPARATOR: u8 = 47;

/// The byte that makes up the names `.` and `..`.
pub const DOT: u8 = 46;

/// The parts of a path between its separators. There is one more of them than
/// there are separators, and each may be empty.
pub open spec fn segments(path: Seq<u8>) -> Seq<Seq<u8>>
    decreases path.len(),
{
    if path.len() == 0 {
        seq![Seq::empty()]
    } else {
        let before = segments(path.drop_last());
        if path.last() == SEPARATOR {
            before.push(Seq::empty())
        } else {
            before.drop_last().push(before.last().push(path.last()))
        }
    }
}

/// A segment that says nothing: an empty one or `.`.
pub open spec fn is_idle(segment: Seq<u8>) -> bool {
    segment.len() == 0 || segment == seq![DOT]
}

/// The segment `..`.
pub open spec fn is_parent(segment: Seq<u8>) -> bool {
    segment == seq![DOT, DOT]
}

/// A segment that names a file.
pub open spec fn is_name(segment: Seq<u8>) -> bool {
    !is_idle(segment) && !is_parent(segment)
}

/// The names on the way from the root to the file that segments lead to, where
/// `..` takes back the name before it, and does nothing at the root.
pub open spec fn resolve(parts: Seq<Seq<u8>>) -> Seq<Seq<u8>>
    decreases parts.len(),
{
    if parts.len() == 0 {
        Seq::empty()
    } else {
        let above = resolve(parts.drop_last());
        if is_idle(parts.last()) {
            above
        } else if is_parent(parts.last()) {
            if above.len() == 0 {
                above
            } else {
                above.drop_last()
            }
        } else {
            above.push(parts.last())
        }
    }
}

/// Names, each behind a separator.
pub open spec fn joined(names: Seq<Seq<u8>>) -> Seq<u8>
    decreases names.len(),
{
    if names.len() == 0 {
        Seq::empty()
    } else {
        joined(names.drop_last()).push(SEPARATOR) + names.last()
    }
}

/// The path from the root along names.
pub open spec fn rooted(names: Seq<Seq<u8>>) -> Seq<u8> {
    if names.len() == 0 {
        seq![SEPARATOR]
    } else {
        joined(names)
    }
}

/// The absolute path that a path resolves to.
pub open spec fn resolved(path: Seq<u8>) -> Seq<u8> {
    rooted(resolve(segments(path)))
}

/// Whether a path starts at the root.
pub open spec fn starts_at_root(path: Seq<u8>) -> bool {
    path.len() > 0 && path[0] == SEPARATOR
}

/// A path that is followed by another one.
pub open spec fn followed_by(path: Seq<u8>, next: Seq<u8>) -> Seq<u8> {
    if starts_at_root(next) {
        next
    } else if path.len() == 0 || path.last() == SEPARATOR {
        path + next
    } else {
        path.push(SEPARATOR) + next
    }
}

/// The text of a path, if it has one, and otherwise no text at all.
pub open spec fn text_or_nothing(path: Seq<u8>) -> Seq<char> {
    if valid_utf8(path) {
        decode_utf8(path)
    } else {
        Seq::empty()
    }
}

/// The path of a file.
#[derive(Debug, PartialEq, Eq)]
pub struct PathBuf {
    pub bytes: Vec<u8>,
}

impl View for PathBuf {
    type V = Seq<u8>;

    open spec fn view(&self) -> Seq<u8> {
        self.bytes@
    }
}

impl Clone for PathBuf {
    fn clone(&self) -> (path: Self)
        ensures
            path@ == self@,
    {
        let mut bytes: Vec<u8> = Vec::new();
        append_bytes(&mut bytes, self.bytes.as_slice());
        assert(bytes@ =~= self@);
        PathBuf { bytes }
    }
}

impl From<&str> for PathBuf {
    fn from(text: &str) -> (path: Self)
        ensures
            path@ == encode_utf8(text@),
    {
        let mut bytes: Vec<u8> = Vec::new();
        append_bytes(&mut bytes, text.as_bytes());
        assert(bytes@ =~= encode_utf8(text@));
        PathBuf { bytes }
    }
}

impl vstd::std_specs::convert::FromSpecImpl<&str> for PathBuf {
    open spec fn obeys_from_spec() -> bool {
        false
    }

    open spec fn from_spec(text: &str) -> Self {
        arbitrary()
    }
}

impl PathBuf {
    /// Whether the path starts at the root.
    pub fn is_absolute(&self) -> (absolute: bool)
        ensures
            absolute == starts_at_root(self@),
    {
        self.bytes.len() > 0 && self.bytes[0] == SEPARATOR
    }

    /// Whether the path starts elsewhere than at the root.
    pub fn is_relative(&self) -> (relative: bool)
        ensures
            relative == !starts_at_root(self@),
    {
        !self.is_absolute()
    }

    /// The path that leads on from here.
    pub fn join(&self, next: &[u8]) -> (path: PathBuf)
        ensures
            path@ == followed_by(self@, next@),
    {
        let mut bytes: Vec<u8> = Vec::new();
        if next.len() == 0 || next[0] != SEPARATOR {
            append_bytes(&mut bytes, self.bytes.as_slice());
            if bytes.len() > 0 && bytes[bytes.len() - 1] != SEPARATOR {
                bytes.push(SEPARATOR);
            }
        }
        append_bytes(&mut bytes, next);
        assert(bytes@ =~= followed_by(self@, next@));
        PathBuf { bytes }
    }

    /// The text of the path. A path that is not UTF-8 gives no text at all.
    pub fn to_text(&self) -> (text: String)
        ensures
            text@ == text_or_nothing(self@),
    {
        match utf8_text(self.bytes.as_slice()) {
            Some(text) => text.to_owned(),
            None => String::new(),
        }
    }

    /// The path as it is shown to a reader.
    pub fn display(&self) -> (text: String)
        ensures
            text@ == shown(self@),
    {
        lossy_text(self.bytes.as_slice())
    }
}

/// Takes the last name from a path.
fn pop_name(bytes: &mut Vec<u8>, Ghost(names): Ghost<Seq<Seq<u8>>>)
    requires
        names.len() > 0,
        !names.last().contains(SEPARATOR),
        old(bytes)@ == joined(names),
    ensures
        final(bytes)@ == joined(names.drop_last()),
{
    let ghost above = joined(names.drop_last());
    let ghost all = joined(names);
    while bytes[bytes.len() - 1] != SEPARATOR
        invariant
            all == above.push(SEPARATOR) + names.last(),
            !names.last().contains(SEPARATOR),
            above.len() < bytes@.len() <= all.len(),
            bytes@ == all.take(bytes@.len() as int),
        decreases bytes@.len(),
    {
        assert(bytes@.len() != above.len() + 1) by {
            assert(all[above.len() as int] == SEPARATOR);
        }
        bytes.pop();
        assert(bytes@ =~= all.take(bytes@.len() as int));
    }
    assert(bytes@.len() == above.len() + 1) by {
        if bytes@.len() > above.len() + 1 {
            let at = bytes@.len() - above.len() - 2;
            assert(names.last()[at] == all[bytes@.len() - 1]);
        }
    }
    bytes.pop();
    assert(bytes@ =~= above);
}

/// Follows one more segment, which lies between two places of a path.
fn follow(
    target: &mut Vec<u8>,
    path: &Vec<u8>,
    start: usize,
    end: usize,
    Ghost(done): Ghost<Seq<Seq<u8>>>,
)
    requires
        start <= end <= path@.len(),
        forall|i: int| 0 <= i < done.len() ==> !(#[trigger] done[i]).contains(SEPARATOR),
        old(target)@ == joined(resolve(done)),
    ensures
        final(target)@ == joined(resolve(done.push(path@.subrange(start as int, end as int)))),
{
    let ghost segment = path@.subrange(start as int, end as int);
    let ghost parts = done.push(segment);
    proof {
        assert(parts.drop_last() =~= done);
        names_have_no_separator(done);
    }
    let length: usize = end - start;
    if length == 0 {
        assert(is_idle(segment));
    } else if length == 1 && path[start] == DOT {
        assert(segment =~= seq![DOT]);
    } else if length == 2 && path[start] == DOT && path[start + 1] == DOT {
        assert(segment =~= seq![DOT, DOT]);
        assert(segment.len() == 2 && !is_idle(segment));
        if target.len() > 0 {
            pop_name(target, Ghost(resolve(done)));
        }
    } else {
        assert(is_name(segment)) by {
            assert(segment.len() == length);
            assert(segment[0] == path@[start as int]);
            assert(length > 1 ==> segment[1] == path@[start + 1]);
            let dot = seq![DOT];
            let parent = seq![DOT, DOT];
            assert(dot.len() == 1 && dot[0] == DOT);
            assert(parent.len() == 2 && parent[0] == DOT && parent[1] == DOT);
        }
        target.push(SEPARATOR);
        append_bytes(target, vstd::slice::slice_subrange(path.as_slice(), start, end));
        assert(resolve(parts).drop_last() =~= resolve(done));
    }
}

/// Resolves `.` and `..` in the path, and returns an absolute path.
pub fn absolute_path(path: PathBuf) -> (absolute: PathBuf)
    ensures
        absolute@ == resolved(path@),
{
    let mut target: Vec<u8> = Vec::new();
    let mut start: usize = 0;
    let ghost mut done: Seq<Seq<u8>> = Seq::empty();
    assert(path@.subrange(0, 0) =~= Seq::empty());
    assert(segments(path@.take(0)) =~= done.push(Seq::empty()));
    for i in 0..path.bytes.len()
        invariant
            start <= i,
            segments(path@.take(i as int)) == done.push(path@.subrange(start as int, i as int)),
            forall|j: int| start <= j < i ==> path@[j] != SEPARATOR,
            forall|j: int| 0 <= j < done.len() ==> !(#[trigger] done[j]).contains(SEPARATOR),
            target@ == joined(resolve(done)),
    {
        let ghost segment = path@.subrange(start as int, i as int);
        proof {
            assert(path@.take(i + 1).drop_last() =~= path@.take(i as int));
            assert(done.push(segment).drop_last() =~= done);
        }
        if path.bytes[i] == SEPARATOR {
            follow(&mut target, &path.bytes, start, i, Ghost(done));
            proof {
                assert(!segment.contains(SEPARATOR));
                done = done.push(segment);
                assert(path@.subrange(i + 1, i + 1) =~= Seq::empty());
            }
            start = i + 1;
        } else {
            assert(path@.subrange(start as int, i + 1) =~= segment.push(path@[i as int]));
        }
    }
    let end: usize = path.bytes.len();
    assert(path@.take(end as int) =~= path@);
    follow(&mut target, &path.bytes, start, end, Ghost(done));
    if target.len() == 0 {
        target.push(SEPARATOR);
    }
    PathBuf { bytes: target }
}

/// What segments resolve to is names, without a separator in them.
pub(crate) proof fn names_have_no_separator(parts: Seq<Seq<u8>>)
    requires
        forall|i: int| 0 <= i < parts.len() ==> !(#[trigger] parts[i]).contains(SEPARATOR),
    ensures
        forall|i: int|
            0 <= i < resolve(parts).len() ==> !(#[trigger] resolve(parts)[i]).contains(SEPARATOR)
                && is_name(resolve(parts)[i]),
    decreases parts.len(),
{
    if parts.len() > 0 {
        let above = parts.drop_last();
        assert forall|i: int| 0 <= i < above.len() implies !(#[trigger] above[i]).contains(
            SEPARATOR,
        ) by {
            assert(above[i] == parts[i]);
        }
        names_have_no_separator(above);
        assert(!parts[parts.len() - 1].contains(SEPARATOR));
        assert forall|i: int| 0 <= i < resolve(parts).len() implies !(#[trigger] resolve(
            parts,
        )[i]).contains(SEPARATOR) && is_name(resolve(parts)[i]) by {
            if i < resolve(above).len() {
                assert(resolve(parts)[i] == resolve(above)[i]);
            }
        }
    }
}

} // verus!
