//! What holds of every search for model files.

use vstd::prelude::*;

use crate::model::{home_of, location, location_misses_nothing, location_takes_the_first};
use crate::model::{child_holds, entry_holds, FileLocation, ModelDir, NamePattern};

verus! {

/// The name is something and then `end`.
pub open spec fn ends_in(name: Seq<char>, end: Seq<char>) -> bool {
    exists|head: Seq<char>| #[trigger] (head + end) == name
}

/// The name is `beginning` and then something.
pub open spec fn begins_with(name: Seq<char>, beginning: Seq<char>) -> bool {
    exists|tail: Seq<char>| #[trigger] (beginning + tail) == name
}

proof fn ends_in_by_place(name: Seq<char>, end: Seq<char>)
    ensures
        ends_in(name, end) <==> name.len() >= end.len() && name.skip(name.len() - end.len())
            == end,
{
    let n = name.len() - end.len();
    if ends_in(name, end) {
        let head = choose|head: Seq<char>| #[trigger] (head + end) == name;
        assert(name.skip(n) =~= end);
    }
    if n >= 0 && name.skip(n) == end {
        assert(name.take(n) + end =~= name);
    }
}

proof fn begins_with_by_place(name: Seq<char>, beginning: Seq<char>)
    ensures
        begins_with(name, beginning) <==> name.len() >= beginning.len() && name.take(
            beginning.len() as int,
        ) == beginning,
{
    let n = beginning.len() as int;
    if begins_with(name, beginning) {
        let tail = choose|tail: Seq<char>| #[trigger] (beginning + tail) == name;
        assert(name.take(n) =~= beginning);
    }
    if name.len() >= n && name.take(n) == beginning {
        assert(beginning + name.skip(n) =~= name);
    }
}

/// A suffix pattern covers exactly the names that are something, a hyphen and the plain
/// name.
pub proof fn suffixed_names_end_in_the_stem(stem: &str, name: Seq<char>)
    ensures
        (NamePattern::Suffixed { stem }).covers(name) <==> ends_in(name, seq!['-'] + stem@),
{
    reveal_strlit("-");
    let tail = "-"@ + stem@;
    assert(tail =~= seq!['-'] + stem@);
    ends_in_by_place(name, tail);
    if name.len() >= tail.len() {
        let n = name.len() - tail.len();
        assert(name.subrange(n, name.len() as int) =~= name.skip(n));
    }
}

/// A prefix pattern covers exactly the plain name and the names that begin with the
/// prefix and end in `.onnx`.
pub proof fn prefixed_names_begin_with_the_prefix(exact: &str, prefix: &str, name: Seq<char>)
    ensures
        (NamePattern::Prefixed { exact, prefix }).covers(name) <==> {
            ||| name == exact@
            ||| {
                &&& begins_with(name, prefix@)
                &&& ends_in(name, seq!['.', 'o', 'n', 'n', 'x'])
            }
        },
{
    reveal_strlit(".onnx");
    let end = ".onnx"@;
    assert(end =~= seq!['.', 'o', 'n', 'n', 'x']);
    ends_in_by_place(name, end);
    begins_with_by_place(name, prefix@);
    if name.len() >= end.len() {
        let n = name.len() - end.len();
        assert(name.subrange(n, name.len() as int) =~= name.skip(n));
    }
    if name.len() >= prefix@.len() {
        let n = prefix@.len() as int;
        assert(name.subrange(0, n) =~= name.take(n));
    }
}

/// No name is covered for two plain names of which neither ends in a hyphen and the
/// other.
pub proof fn one_name_serves_one_stem(stem: &str, other: &str, name: Seq<char>)
    requires
        stem@ != other@,
        !(NamePattern::Suffixed { stem }).covers(other@),
        !(NamePattern::Suffixed { stem: other }).covers(stem@),
    ensures
        !((NamePattern::Suffixed { stem }).covers(name) && (NamePattern::Suffixed {
            stem: other,
        }).covers(name)),
{
    suffixed_names_end_in_the_stem(stem, name);
    suffixed_names_end_in_the_stem(other, name);
    if (NamePattern::Suffixed { stem }).covers(name) && (NamePattern::Suffixed {
        stem: other,
    }).covers(name) {
        suffixed_names_end_in_the_stem(stem, other@);
        suffixed_names_end_in_the_stem(other, stem@);
        if stem@.len() <= other@.len() {
            shorter_ending_ends_the_longer(stem@, other@, name);
        } else {
            shorter_ending_ends_the_longer(other@, stem@, name);
        }
    }
}

proof fn shorter_ending_ends_the_longer(short: Seq<char>, long: Seq<char>, name: Seq<char>)
    requires
        short.len() <= long.len(),
        ends_in(name, seq!['-'] + short),
        ends_in(name, seq!['-'] + long),
    ensures
        short == long || ends_in(long, seq!['-'] + short),
{
    let a = seq!['-'] + short;
    let b = seq!['-'] + long;
    let gap = b.len() - a.len();
    ends_in_by_place(name, a);
    ends_in_by_place(name, b);
    ends_in_by_place(long, a);
    assert(name.skip(name.len() - b.len()).skip(gap) =~= name.skip(name.len() - a.len()));
    assert(b.skip(gap) == a);
    if gap == 0 {
        assert(b.skip(0) =~= b);
        assert(a.skip(1) =~= short);
        assert(b.skip(1) =~= long);
    } else {
        assert(long.skip(gap - 1) =~= b.skip(gap));
    }
}

/// The files of a Whisper model are told apart by their names: no name is covered for
/// two of them.
pub proof fn whisper_files_are_told_apart(name: Seq<char>)
    ensures
        !((NamePattern::Suffixed { stem: "encoder.onnx" }).covers(name)
            && (NamePattern::Suffixed { stem: "decoder.onnx" }).covers(name)),
        !((NamePattern::Suffixed { stem: "encoder.onnx" }).covers(name)
            && (NamePattern::Suffixed { stem: "tokens.txt" }).covers(name)),
        !((NamePattern::Suffixed { stem: "decoder.onnx" }).covers(name)
            && (NamePattern::Suffixed { stem: "tokens.txt" }).covers(name)),
{
    reveal_strlit("encoder.onnx");
    reveal_strlit("decoder.onnx");
    reveal_strlit("tokens.txt");
    let n = name.len() as int;
    suffixed_names_end_in_the_stem("encoder.onnx", name);
    suffixed_names_end_in_the_stem("decoder.onnx", name);
    suffixed_names_end_in_the_stem("tokens.txt", name);
    assert("encoder.onnx"@.len() == 12 && "encoder.onnx"@[0] == 'e' && "encoder.onnx"@[10] == 'n');
    assert("decoder.onnx"@.len() == 12 && "decoder.onnx"@[0] == 'd' && "decoder.onnx"@[10] == 'n');
    assert("tokens.txt"@.len() == 10 && "tokens.txt"@[8] == 'x');
    if (NamePattern::Suffixed { stem: "encoder.onnx" }).covers(name) {
        let end = seq!['-'] + "encoder.onnx"@;
        ends_in_by_place(name, end);
        assert(name.skip(n - 13)[11] == end[11]);
        assert(name.skip(n - 13)[1] == end[1]);
        assert(name[n - 12] == 'e' && name[n - 2] == 'n');
    }
    if (NamePattern::Suffixed { stem: "decoder.onnx" }).covers(name) {
        let end = seq!['-'] + "decoder.onnx"@;
        ends_in_by_place(name, end);
        assert(name.skip(n - 13)[11] == end[11]);
        assert(name.skip(n - 13)[1] == end[1]);
        assert(name[n - 12] == 'd' && name[n - 2] == 'n');
    }
    if (NamePattern::Suffixed { stem: "tokens.txt" }).covers(name) {
        let end = seq!['-'] + "tokens.txt"@;
        ends_in_by_place(name, end);
        assert(name.skip(n - 11)[9] == end[9]);
        assert(name[n - 2] == 'x');
    }
}

/// The name under which a file was found, where it is not the plain one.
pub open spec fn found_name(dir: ModelDir, found: FileLocation) -> Option<Seq<char>> {
    match found {
        FileLocation::Exact => None,
        FileLocation::Entry(i) => Some(dir.entries@[i as int].name@),
        FileLocation::ChildExact(_) => None,
        FileLocation::ChildEntry(i, k) => Some(
            dir.entries@[i as int].child->0.names@[k as int]@,
        ),
    }
}

/// A file of a Whisper model that was found has its plain name, or one that ends in a
/// hyphen and the plain name.
pub proof fn found_files_end_in_the_stem(dir: ModelDir, stem: &str)
    ensures
        location(dir, NamePattern::Suffixed { stem }) matches Some(found) ==> {
            match found_name(dir, found) {
                Some(name) => ends_in(name, seq!['-'] + stem@),
                None => true,
            }
        },
{
    let pattern = NamePattern::Suffixed { stem };
    location_takes_the_first(dir, pattern);
    match location(dir, pattern) {
        Some(found) => match found_name(dir, found) {
            Some(name) => suffixed_names_end_in_the_stem(stem, name),
            None => {},
        },
        None => {},
    }
}

/// A file of a Zipformer model that was found has its plain name, or one that begins
/// with the prefix and ends in `.onnx`.
pub proof fn found_files_begin_with_the_prefix(dir: ModelDir, exact: &str, prefix: &str)
    ensures
        location(dir, NamePattern::Prefixed { exact, prefix }) matches Some(found) ==> {
            match found_name(dir, found) {
                Some(name) => {
                    ||| name == exact@
                    ||| {
                        &&& begins_with(name, prefix@)
                        &&& ends_in(name, seq!['.', 'o', 'n', 'n', 'x'])
                    }
                },
                None => true,
            }
        },
{
    let pattern = NamePattern::Prefixed { exact, prefix };
    location_takes_the_first(dir, pattern);
    match location(dir, pattern) {
        Some(found) => match found_name(dir, found) {
            Some(name) => prefixed_names_begin_with_the_prefix(exact, prefix, name),
            None => {},
        },
        None => {},
    }
}

/// Without the plain name, an entry with a covered name is taken before anything
/// further down, and it is the first of them.
pub proof fn covered_entries_go_next(dir: ModelDir, pattern: NamePattern, i: int)
    requires
        !dir.exact,
        0 <= i < dir.entries@.len(),
        pattern.covers(dir.entries@[i].name@),
        forall|j: int| 0 <= j < i ==> !pattern.covers((#[trigger] dir.entries@[j]).name@),
    ensures
        location(dir, pattern) == Some(FileLocation::Entry(i as usize)),
{
    location_misses_nothing(dir, pattern);
    location_takes_the_first(dir, pattern);
    let name = dir.entries@[i].name@;
    match location(dir, pattern) {
        Some(FileLocation::Entry(k)) => {
            if k < i {
                assert(!pattern.covers(dir.entries@[k as int].name@));
            } else if i < k {
                assert(!pattern.covers(dir.entries@[i].name@));
            }
        },
        _ => {
            assert(!pattern.covers(dir.entries@[i].name@));
        },
    }
}

/// Further down, the first directory that has the file is taken: under the plain name
/// where that exists in it, and else under the first of its covered names.
pub proof fn directories_go_last(dir: ModelDir, pattern: NamePattern, i: int, k: int)
    requires
        !dir.exact,
        forall|j: int|
            0 <= j < dir.entries@.len() ==> !pattern.covers((#[trigger] dir.entries@[j]).name@),
        0 <= i < dir.entries@.len(),
        dir.entries@[i].child is Some,
        forall|j: int|
            0 <= j < i && (#[trigger] dir.entries@[j]).child is Some ==> {
                &&& !dir.entries@[j].child->0.exact
                &&& forall|m: int|
                    0 <= m < dir.entries@[j].child->0.names@.len() ==> !pattern.covers(
                        #[trigger] dir.entries@[j].child->0.names@[m]@,
                    )
            },
    ensures
        dir.entries@[i].child->0.exact ==> location(dir, pattern) == Some(
            FileLocation::ChildExact(i as usize),
        ),
        ({
            &&& !dir.entries@[i].child->0.exact
            &&& 0 <= k < dir.entries@[i].child->0.names@.len()
            &&& pattern.covers(dir.entries@[i].child->0.names@[k]@)
            &&& forall|m: int|
                0 <= m < k ==> !pattern.covers(#[trigger] dir.entries@[i].child->0.names@[m]@)
        }) ==> location(dir, pattern) == Some(FileLocation::ChildEntry(i as usize, k as usize)),
{
    location_misses_nothing(dir, pattern);
    location_takes_the_first(dir, pattern);
    let child = dir.entries@[i].child->0;
    let here = 0 <= k < child.names@.len() && pattern.covers(child.names@[k]@);
    if child.exact || here {
        assert(child_holds(child, pattern));
        assert(entry_holds(dir.entries@[i], pattern));
        assert forall|j: int| 0 <= j < i implies !entry_holds(
            #[trigger] dir.entries@[j],
            pattern,
        ) by {}
        match location(dir, pattern) {
            Some(FileLocation::ChildExact(a)) => {
                if a < i {
                    assert(!entry_holds(dir.entries@[a as int], pattern));
                    assert(child_holds(dir.entries@[a as int].child->0, pattern));
                }
                assert(a == i);
            },
            Some(FileLocation::ChildEntry(a, b)) => {
                if a < i {
                    assert(!entry_holds(dir.entries@[a as int], pattern));
                    assert(child_holds(dir.entries@[a as int].child->0, pattern));
                }
                assert(a == i);
                if here && b != k {
                    if b < k {
                        assert(pattern.covers(child.names@[b as int]@));
                    } else {
                        assert(pattern.covers(child.names@[k]@));
                    }
                }
            },
            Some(FileLocation::Entry(a)) => {
                assert(!pattern.covers(dir.entries@[a as int].name@));
            },
            _ => {},
        }
    }
}

/// A file that is nowhere is not found.
pub proof fn nothing_is_made_up(dir: ModelDir, pattern: NamePattern)
    requires
        !dir.exact,
        forall|j: int|
            0 <= j < dir.entries@.len() ==> !pattern.covers((#[trigger] dir.entries@[j]).name@),
        forall|j: int|
            0 <= j < dir.entries@.len() && (#[trigger] dir.entries@[j]).child is Some ==> {
                &&& !dir.entries@[j].child->0.exact
                &&& forall|m: int|
                    0 <= m < dir.entries@[j].child->0.names@.len() ==> !pattern.covers(
                        #[trigger] dir.entries@[j].child->0.names@[m]@,
                    )
            },
    ensures
        location(dir, pattern) is None,
{
    location_misses_nothing(dir, pattern);
}

/// The home directory is what the first setting says; the second one counts only where
/// the first is missing.
pub proof fn the_first_setting_is_home(first: Seq<char>, second: Option<Seq<char>>)
    ensures
        home_of(Some(first), second) == first,
        home_of(None, Some(first)) == first,
        home_of(None, None).len() == 0,
{
}

} // verus!
