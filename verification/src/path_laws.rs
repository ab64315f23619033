//! What holds of resolved paths.

use vstd::prelude::*;
use vstd::utf8::{decode_utf8_encode_utf8, encode_utf8, valid_utf8};

use crate::path::{
    followed_by, is_idle, is_name, is_parent, joined, names_have_no_separator, resolve, resolved,
    rooted, segments, starts_at_root, text_or_nothing, DOT, SEPARATOR,
};
use crate::text::{lossy_utf8, shown};

verus! {

proof fn segments_have_no_separator(path: Seq<u8>)
    ensures
        segments(path).len() > 0,
        forall|i: int|
            0 <= i < segments(path).len() ==> !(#[trigger] segments(path)[i]).contains(SEPARATOR),
    decreases path.len(),
{
    if path.len() > 0 {
        let before = segments(path.drop_last());
        segments_have_no_separator(path.drop_last());
        assert forall|i: int| 0 <= i < segments(path).len() implies !(#[trigger] segments(
            path,
        )[i]).contains(SEPARATOR) by {
            if i < before.len() - 1 {
                assert(segments(path)[i] == before[i]);
            } else if path.last() != SEPARATOR {
                assert(!before[before.len() - 1].contains(SEPARATOR));
                let grown = before.last().push(path.last());
                assert forall|j: int| 0 <= j < grown.len() implies grown[j] != SEPARATOR by {
                    if j < before.last().len() {
                        assert(before.last().contains(grown[j]));
                    }
                }
            } else if i < before.len() {
                assert(segments(path)[i] == before[i]);
            }
        }
    }
}

/// A part without separators that follows a separator is a segment of its own.
proof fn last_segment(path: Seq<u8>, segment: Seq<u8>)
    requires
        !segment.contains(SEPARATOR),
    ensures
        segments(path.push(SEPARATOR) + segment) == segments(path).push(segment),
    decreases segment.len(),
{
    let whole = path.push(SEPARATOR) + segment;
    if segment.len() == 0 {
        assert(whole =~= path.push(SEPARATOR));
        assert(whole.drop_last() =~= path);
        assert(segment =~= Seq::empty());
    } else {
        let shorter = segment.drop_last();
        assert forall|j: int| 0 <= j < shorter.len() implies shorter[j] != SEPARATOR by {
            assert(segment.contains(segment[j]));
        }
        last_segment(path, shorter);
        assert(whole.drop_last() =~= path.push(SEPARATOR) + shorter);
        assert(segment.contains(segment.last()));
        assert(segments(path).push(shorter).drop_last() =~= segments(path));
        assert(shorter.push(segment.last()) =~= segment);
    }
}

proof fn segments_of_joined(names: Seq<Seq<u8>>)
    requires
        forall|i: int|
            0 <= i < names.len() ==> is_name(#[trigger] names[i]) && !names[i].contains(SEPARATOR),
    ensures
        segments(joined(names)) == seq![Seq::<u8>::empty()] + names,
        resolve(segments(joined(names))) == names,
    decreases names.len(),
{
    let root = seq![Seq::<u8>::empty()];
    if names.len() == 0 {
        assert(root + names =~= root);
        assert(root.drop_last() =~= Seq::empty());
        reveal_with_fuel(resolve, 2);
        assert(resolve(root) =~= names);
    } else {
        let above = names.drop_last();
        assert forall|i: int| 0 <= i < above.len() implies is_name(#[trigger] above[i])
            && !above[i].contains(SEPARATOR) by {
            assert(above[i] == names[i]);
        }
        segments_of_joined(above);
        assert(is_name(names[names.len() - 1]));
        last_segment(joined(above), names.last());
        assert((root + above).push(names.last()) =~= root + names);
        assert((root + names).drop_last() =~= root + above);
        assert(above.push(names.last()) =~= names);
    }
}

/// A path along names resolves to itself.
pub proof fn names_resolve_to_themselves(names: Seq<Seq<u8>>)
    requires
        forall|i: int|
            0 <= i < names.len() ==> is_name(#[trigger] names[i]) && !names[i].contains(SEPARATOR),
    ensures
        resolved(rooted(names)) == rooted(names),
{
    if names.len() == 0 {
        reveal_with_fuel(segments, 2);
        reveal_with_fuel(resolve, 3);
        let root = seq![SEPARATOR];
        let nothing = Seq::<u8>::empty();
        assert(root.drop_last() =~= nothing);
        assert(segments(root) =~= seq![nothing, nothing]);
        assert(seq![nothing, nothing].drop_last() =~= seq![nothing]);
        assert(seq![nothing].drop_last() =~= Seq::empty());
        assert(resolve(seq![nothing]) =~= Seq::empty());
        assert(resolve(segments(root)) =~= Seq::empty());
    } else {
        segments_of_joined(names);
    }
}

/// What a path resolves to starts at the root.
pub proof fn resolved_path_is_absolute(path: Seq<u8>)
    ensures
        starts_at_root(resolved(path)),
{
    let names = resolve(segments(path));
    if names.len() > 0 {
        joined_starts_at_root(names);
    }
}

proof fn joined_starts_at_root(names: Seq<Seq<u8>>)
    requires
        names.len() > 0,
    ensures
        starts_at_root(joined(names)),
    decreases names.len(),
{
    if names.len() > 1 {
        joined_starts_at_root(names.drop_last());
    } else {
        reveal_with_fuel(joined, 2);
        assert(names.drop_last() =~= Seq::empty());
    }
}

/// What a path resolves to has no `.` and no `..` in it, and no two separators
/// next to each other: it is the root, or a row of names.
pub proof fn resolved_path_holds_names_only(path: Seq<u8>)
    ensures
        resolved(path) == seq![SEPARATOR] || ({
            let parts = segments(resolved(path));
            &&& parts.len() > 1
            &&& parts[0].len() == 0
            &&& forall|i: int| 1 <= i < parts.len() ==> is_name(#[trigger] parts[i])
        }),
{
    segments_have_no_separator(path);
    names_have_no_separator(segments(path));
    let names = resolve(segments(path));
    if names.len() > 0 {
        segments_of_joined(names);
        let parts = segments(resolved(path));
        assert forall|i: int| 1 <= i < parts.len() implies is_name(#[trigger] parts[i]) by {
            assert(parts[i] == names[i - 1]);
        }
    }
}

/// Resolving a path a second time changes nothing.
pub proof fn resolving_again_changes_nothing(path: Seq<u8>)
    ensures
        resolved(resolved(path)) == resolved(path),
{
    segments_have_no_separator(path);
    names_have_no_separator(segments(path));
    names_resolve_to_themselves(resolve(segments(path)));
}

/// A `.` at the end of a path changes nothing, and neither does a separator.
pub proof fn idle_segments_change_nothing(path: Seq<u8>)
    ensures
        resolved(path.push(SEPARATOR).push(DOT)) == resolved(path),
        resolved(path.push(SEPARATOR)) == resolved(path),
{
    let dot = seq![DOT];
    assert(!dot.contains(SEPARATOR));
    last_segment(path, dot);
    assert(path.push(SEPARATOR) + dot =~= path.push(SEPARATOR).push(DOT));
    assert(segments(path).push(dot).drop_last() =~= segments(path));
    let nothing = Seq::<u8>::empty();
    last_segment(path, nothing);
    assert(path.push(SEPARATOR) + nothing =~= path.push(SEPARATOR));
    assert(segments(path).push(nothing).drop_last() =~= segments(path));
}

/// A `..` takes back the name before it.
pub proof fn parent_takes_back_a_name(path: Seq<u8>, name: Seq<u8>)
    requires
        is_name(name),
        !name.contains(SEPARATOR),
    ensures
        resolved((path.push(SEPARATOR) + name).push(SEPARATOR) + seq![DOT, DOT]) == resolved(path),
{
    let parent = seq![DOT, DOT];
    let below = path.push(SEPARATOR) + name;
    assert(!parent.contains(SEPARATOR));
    last_segment(path, name);
    last_segment(below, parent);
    assert(segments(below).push(parent).drop_last() =~= segments(below));
    assert(segments(path).push(name).drop_last() =~= segments(path));
    assert(is_parent(parent) && !is_idle(parent)) by {
        assert(parent.len() == 2);
    }
    assert(resolve(segments(below)) =~= resolve(segments(path)).push(name));
    assert(resolve(segments(below)).drop_last() =~= resolve(segments(path)));
}

/// A `..` at the root stays there.
pub proof fn root_has_no_parent(path: Seq<u8>)
    requires
        resolved(path) == seq![SEPARATOR],
    ensures
        resolved(path.push(SEPARATOR) + seq![DOT, DOT]) == seq![SEPARATOR],
{
    let parent = seq![DOT, DOT];
    assert(!parent.contains(SEPARATOR));
    last_segment(path, parent);
    assert(segments(path).push(parent).drop_last() =~= segments(path));
    assert(is_parent(parent) && !is_idle(parent)) by {
        assert(parent.len() == 2);
    }
    segments_have_no_separator(path);
    names_have_no_separator(segments(path));
    let names = resolve(segments(path));
    if names.len() > 0 {
        assert(is_name(names[names.len() - 1]));
        assert(joined(names).len() >= 1 + names.last().len());
    }
}

/// A path is split at each `/`, and a segment is a name unless it is empty, `.` or
/// `..`. A path starts at the root exactly if its first byte is `/`.
pub proof fn every_other_segment_is_a_name(segment: Seq<u8>)
    ensures
        SEPARATOR == 47,
        DOT == 46,
        is_name(segment) <==> segment.len() > 0 && segment != seq![46u8] && segment != seq![
            46u8,
            46u8,
        ],
        starts_at_root(segment) <==> segment.len() > 0 && segment[0] == 47,
{
}

/// The segments of a path, put together again with a separator between them, are
/// the path.
pub open spec fn put_together(parts: Seq<Seq<u8>>) -> Seq<u8>
    decreases parts.len(),
{
    if parts.len() <= 1 {
        parts.last()
    } else {
        put_together(parts.drop_last()).push(47u8) + parts.last()
    }
}

/// Splitting a path loses nothing: its segments hold no separator, and put together
/// again they are the path.
pub proof fn segments_put_together_are_the_path(path: Seq<u8>)
    ensures
        segments(path).len() > 0,
        forall|i: int|
            0 <= i < segments(path).len() ==> !(#[trigger] segments(path)[i]).contains(47u8),
        put_together(segments(path)) == path,
    decreases path.len(),
{
    segments_have_no_separator(path);
    let parts = segments(path);
    if path.len() == 0 {
        assert(put_together(parts) =~= path);
    } else {
        let shorter = path.drop_last();
        let before = segments(shorter);
        segments_put_together_are_the_path(shorter);
        if path.last() == SEPARATOR {
            assert(parts.drop_last() =~= before);
            assert(put_together(parts) =~= path);
        } else {
            assert(parts.drop_last() =~= before.drop_last());
            assert(parts.last() =~= before.last().push(path.last()));
            assert(put_together(parts) =~= put_together(before).push(path.last()));
            assert(shorter.push(path.last()) =~= path);
        }
    }
}

proof fn segments_of_two_parts(path: Seq<u8>, rest: Seq<u8>)
    ensures
        segments(path.push(SEPARATOR) + rest) == segments(path) + segments(rest),
    decreases rest.len(),
{
    let whole = path.push(SEPARATOR) + rest;
    if rest.len() == 0 {
        assert(whole =~= path.push(SEPARATOR));
        assert(whole.drop_last() =~= path);
        assert(segments(whole) =~= segments(path) + segments(rest));
    } else {
        let shorter = rest.drop_last();
        segments_of_two_parts(path, shorter);
        segments_have_no_separator(shorter);
        assert(whole.drop_last() =~= path.push(SEPARATOR) + shorter);
        assert(segments(whole) =~= segments(path) + segments(rest));
    }
}

proof fn equal_starts_resolve_alike(first: Seq<Seq<u8>>, second: Seq<Seq<u8>>, rest: Seq<Seq<u8>>)
    requires
        resolve(first) == resolve(second),
    ensures
        resolve(first + rest) == resolve(second + rest),
    decreases rest.len(),
{
    if rest.len() == 0 {
        assert(first + rest =~= first);
        assert(second + rest =~= second);
    } else {
        equal_starts_resolve_alike(first, second, rest.drop_last());
        assert((first + rest).drop_last() =~= first + rest.drop_last());
        assert((second + rest).drop_last() =~= second + rest.drop_last());
    }
}

proof fn resolved_path_has_the_same_names(path: Seq<u8>)
    ensures
        resolve(segments(resolved(path))) == resolve(segments(path)),
{
    segments_have_no_separator(path);
    names_have_no_separator(segments(path));
    let names = resolve(segments(path));
    if names.len() > 0 {
        segments_of_joined(names);
    } else {
        reveal_with_fuel(segments, 2);
        reveal_with_fuel(resolve, 3);
        let nothing = Seq::<u8>::empty();
        assert(seq![SEPARATOR].drop_last() =~= nothing);
        assert(segments(seq![SEPARATOR]) =~= seq![nothing, nothing]);
        assert(seq![nothing, nothing].drop_last() =~= seq![nothing]);
        assert(seq![nothing].drop_last() =~= Seq::empty());
        assert(resolve(segments(seq![SEPARATOR])) =~= names);
    }
}

/// A path can be resolved in steps: the first part of it first, wherever the cut is,
/// and then the rest from there.
pub proof fn paths_resolve_in_steps(path: Seq<u8>, rest: Seq<u8>)
    ensures
        resolved(path.push(47u8) + rest) == resolved(resolved(path).push(47u8) + rest),
{
    resolved_path_has_the_same_names(path);
    segments_of_two_parts(path, rest);
    segments_of_two_parts(resolved(path), rest);
    equal_starts_resolve_alike(segments(path), segments(resolved(path)), segments(rest));
}

/// A path that does not start at the root resolves as the same path from the root.
pub proof fn relative_paths_resolve_from_the_root(path: Seq<u8>)
    ensures
        resolved(seq![47u8] + path) == resolved(path),
{
    let nothing = Seq::<u8>::empty();
    segments_of_two_parts(nothing, path);
    assert(nothing.push(SEPARATOR) =~= seq![47u8]);
    let none = Seq::<Seq<u8>>::empty();
    assert(segments(nothing).drop_last() =~= none);
    reveal_with_fuel(resolve, 2);
    assert(resolve(segments(nothing)) =~= resolve(none));
    equal_starts_resolve_alike(segments(nothing), none, segments(path));
    assert(none + segments(path) =~= segments(path));
}

/// A name at the end of a path leads on from what the path resolves to, whatever the
/// name is; and `..` leads back from there.
pub proof fn name_leads_on(path: Seq<u8>, name: Seq<u8>)
    requires
        name.len() > 0,
        name != seq![46u8],
        name != seq![46u8, 46u8],
        !name.contains(47u8),
    ensures
        resolved(path) == seq![47u8] ==> resolved(path.push(47u8) + name) == seq![47u8] + name,
        resolved(path) != seq![47u8] ==> resolved(path.push(47u8) + name) == resolved(path).push(
            47u8,
        ) + name,
        resolved((path.push(47u8) + name).push(47u8) + seq![46u8, 46u8]) == resolved(path),
{
    assert(is_name(name));
    parent_takes_back_a_name(path, name);
    last_segment(path, name);
    segments_have_no_separator(path);
    names_have_no_separator(segments(path));
    let above = resolve(segments(path));
    let names = above.push(name);
    assert(segments(path).push(name).drop_last() =~= segments(path));
    assert(resolve(segments(path.push(SEPARATOR) + name)) == names);
    assert(names.drop_last() =~= above);
    assert(joined(names) == joined(above).push(SEPARATOR) + name);
    if above.len() == 0 {
        assert(joined(names) =~= seq![47u8] + name);
    } else {
        assert(is_name(above[above.len() - 1]));
        assert(joined(above).len() >= 1 + above.last().len());
        if joined(above).len() == 1 {
            assert(above.last().len() == 0);
        }
    }
}

/// A path without a separator is a name at the root, or the root itself.
pub proof fn single_segment_is_at_the_root(segment: Seq<u8>)
    requires
        !segment.contains(47u8),
    ensures
        is_name(segment) ==> resolved(segment) == seq![47u8] + segment,
        !is_name(segment) ==> resolved(segment) == seq![47u8],
{
    let nothing = Seq::<u8>::empty();
    relative_paths_resolve_from_the_root(nothing);
    relative_paths_resolve_from_the_root(segment);
    assert(seq![47u8] + nothing =~= seq![SEPARATOR]);
    names_resolve_to_themselves(Seq::empty());
    assert(resolved(nothing) == seq![SEPARATOR]);
    assert(nothing.push(SEPARATOR) + segment =~= seq![47u8] + segment);
    if is_name(segment) {
        name_leads_on(nothing, segment);
    } else if is_parent(segment) {
        root_has_no_parent(nothing);
    } else {
        idle_segments_change_nothing(nothing);
        if segment.len() == 0 {
            assert(nothing.push(SEPARATOR) + segment =~= nothing.push(SEPARATOR));
        } else {
            assert(nothing.push(SEPARATOR) + segment =~= nothing.push(SEPARATOR).push(DOT));
        }
    }
}

/// A path that leads on from another holds both, with one separator where they meet;
/// only a path from the root stands alone.
pub proof fn paths_meet_at_one_separator(path: Seq<u8>, next: Seq<u8>)
    ensures
        next.len() > 0 && next[0] == 47 ==> followed_by(path, next) == next,
        path.len() == 0 ==> followed_by(path, next) == next,
        (next.len() == 0 || next[0] != 47) && path.len() > 0 ==> {
            let whole = followed_by(path, next);
            let meets: int = if path.last() == 47 {
                path.len() - 1
            } else {
                path.len() as int
            };
            &&& whole.len() == meets + 1 + next.len()
            &&& whole.take(meets) == path.take(meets)
            &&& whole[meets] == 47
            &&& whole.skip(meets + 1) == next
        },
{
    let whole = followed_by(path, next);
    if path.len() == 0 {
        assert(path + next =~= next);
    } else if next.len() == 0 || next[0] != 47 {
        let meets: int = if path.last() == 47 {
            path.len() - 1
        } else {
            path.len() as int
        };
        assert(whole.take(meets) =~= path.take(meets));
        assert(whole.skip(meets + 1) =~= next);
    }
}

/// The text of a path that is UTF-8 is the one whose bytes the path is, both where it
/// is asked about and where it is shown. A path that is not UTF-8 is asked about
/// without any text, and shown with replacement characters.
pub proof fn text_of_a_path_gives_the_path_back(path: Seq<u8>)
    ensures
        valid_utf8(path) ==> encode_utf8(text_or_nothing(path)) == path,
        valid_utf8(path) ==> encode_utf8(shown(path)) == path,
        !valid_utf8(path) ==> text_or_nothing(path).len() == 0,
        !valid_utf8(path) ==> shown(path) == lossy_utf8(path),
{
    if valid_utf8(path) {
        decode_utf8_encode_utf8(path);
    }
}

} // verus!
