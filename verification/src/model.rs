//! Where the model files lie, and how one is picked among the files of a directory.

use vstd::prelude::*;
use vstd::string::*;

use crate::text::{ends_with, join, same, starts_with};

verus! {

/// The plain names of the model files.
pub const ENCODER_FILE: &'static str = "encoder.onnx";

pub const DECODER_FILE: &'static str = "decoder.onnx";

pub const JOINER_FILE: &'static str = "joiner.onnx";

pub const TOKENS_FILE: &'static str = "tokens.txt";

/// How many threads a recognizer runs on.
pub const NUM_THREADS: i32 = 4;

/// What a recognizer runs on.
pub const PROVIDER: &'static str = "cpu";

/// What was seen of a directory below the model directory.
pub struct ChildDir {
    /// The file that is looked for exists there under its plain name.
    pub exact: bool,
    /// The names of the entries, in the order in which they were listed.
    pub names: Vec<String>,
}

/// One entry of the model directory.
pub struct ModelEntry {
    pub name: String,
    /// What is inside, where the entry is a directory.
    pub child: Option<ChildDir>,
}

/// What was seen of the model directory. A directory that cannot be listed has
/// no entries.
pub struct ModelDir {
    /// The file that is looked for exists there under its plain name.
    pub exact: bool,
    /// The entries, in the order in which they were listed.
    pub entries: Vec<ModelEntry>,
}

/// Where a file was found. Entries are told by their place in the listing.
#[derive(Clone, Copy, Debug, PartialEq, Eq, Structural)]
pub enum FileLocation {
    /// The plain name, in the model directory.
    Exact,
    /// An entry of the model directory.
    Entry(usize),
    /// The plain name, in the directory that an entry is.
    ChildExact(usize),
    /// An entry of the directory that an entry is.
    ChildEntry(usize, usize),
}

/// Which names besides the plain one a file may have.
pub enum NamePattern<'a> {
    /// A name that ends in a hyphen and the plain name.
    Suffixed { stem: &'a str },
    /// The plain name, or one with the given beginning that ends in `.onnx`.
    Prefixed { exact: &'a str, prefix: &'a str },
}

impl NamePattern<'_> {
    /// The pattern covers the name.
    pub open spec fn covers(self, name: Seq<char>) -> bool {
        match self {
            NamePattern::Suffixed { stem } => {
                ("-"@ + stem@).is_suffix_of(name) && name != stem@
            },
            NamePattern::Prefixed { exact, prefix } => {
                ||| prefix@.is_prefix_of(name) && ".onnx"@.is_suffix_of(name)
                ||| name == exact@
            },
        }
    }

    /// Whether the pattern covers the name.
    pub fn check(&self, name: &str) -> (covered: bool)
        ensures
            covered == self.covers(name@),
    {
        match self {
            NamePattern::Suffixed { stem } => {
                ends_with(name, join("-", stem).as_str()) && !same(name, stem)
            },
            NamePattern::Prefixed { exact, prefix } => {
                (starts_with(name, prefix) && ends_with(name, ".onnx")) || same(name, exact)
            },
        }
    }
}

/// The place of the first covered name, at or behind `from`.
pub open spec fn first_covered(names: Seq<String>, pattern: NamePattern, from: int) -> Option<int>
    decreases names.len() - from,
{
    if from < 0 || from >= names.len() {
        None
    } else if pattern.covers(names[from]@) {
        Some(from)
    } else {
        first_covered(names, pattern, from + 1)
    }
}

/// The place of the first entry with a covered name, at or behind `from`.
pub open spec fn first_covered_entry(
    entries: Seq<ModelEntry>,
    pattern: NamePattern,
    from: int,
) -> Option<int>
    decreases entries.len() - from,
{
    if from < 0 || from >= entries.len() {
        None
    } else if pattern.covers(entries[from].name@) {
        Some(from)
    } else {
        first_covered_entry(entries, pattern, from + 1)
    }
}

/// Where the file lies in the first directory that holds it, among the entries at
/// or behind `from`. Within a directory the plain name goes first.
pub open spec fn first_in_child(
    entries: Seq<ModelEntry>,
    pattern: NamePattern,
    from: int,
) -> Option<FileLocation>
    decreases entries.len() - from,
{
    if from < 0 || from >= entries.len() {
        None
    } else {
        match entries[from].child {
            Some(child) if child.exact => Some(FileLocation::ChildExact(from as usize)),
            Some(child) if first_covered(child.names@, pattern, 0) is Some => Some(
                FileLocation::ChildEntry(
                    from as usize,
                    first_covered(child.names@, pattern, 0)->0 as usize,
                ),
            ),
            _ => first_in_child(entries, pattern, from + 1),
        }
    }
}

/// Where the file lies: under its plain name if it exists, else in the first
/// entry that the pattern covers, else one directory further down.
pub open spec fn location(dir: ModelDir, pattern: NamePattern) -> Option<FileLocation> {
    if dir.exact {
        Some(FileLocation::Exact)
    } else {
        match first_covered_entry(dir.entries@, pattern, 0) {
            Some(i) => Some(FileLocation::Entry(i as usize)),
            None => first_in_child(dir.entries@, pattern, 0),
        }
    }
}

fn find_name(names: &Vec<String>, pattern: &NamePattern) -> (found: Option<usize>)
    ensures
        match first_covered(names@, *pattern, 0) {
            Some(i) => found is Some && found->0 == i,
            None => found is None,
        },
{
    let mut i: usize = 0;
    while i < names.len()
        invariant
            i <= names@.len(),
            first_covered(names@, *pattern, 0) == first_covered(names@, *pattern, i as int),
        decreases names.len() - i,
    {
        if pattern.check(names[i].as_str()) {
            return Some(i);
        }
        i = i + 1;
    }
    None
}

/// Looks a model file up in what was seen of the model directory.
pub fn locate(dir: &ModelDir, pattern: &NamePattern) -> (found: Option<FileLocation>)
    ensures
        found == location(*dir, *pattern),
{
    if dir.exact {
        return Some(FileLocation::Exact);
    }
    let mut i: usize = 0;
    while i < dir.entries.len()
        invariant
            i <= dir.entries@.len(),
            !dir.exact,
            first_covered_entry(dir.entries@, *pattern, 0) == first_covered_entry(
                dir.entries@,
                *pattern,
                i as int,
            ),
        decreases dir.entries.len() - i,
    {
        if pattern.check(dir.entries[i].name.as_str()) {
            return Some(FileLocation::Entry(i));
        }
        i = i + 1;
    }
    let mut j: usize = 0;
    while j < dir.entries.len()
        invariant
            j <= dir.entries@.len(),
            location(*dir, *pattern) == first_in_child(dir.entries@, *pattern, j as int),
        decreases dir.entries.len() - j,
    {
        match &dir.entries[j].child {
            Some(child) => {
                if child.exact {
                    return Some(FileLocation::ChildExact(j));
                }
                match find_name(&child.names, pattern) {
                    Some(k) => {
                        return Some(FileLocation::ChildEntry(j, k));
                    },
                    None => {},
                }
            },
            None => {},
        }
        j = j + 1;
    }
    None
}

/// The directory, below the user's home, that holds one directory of model files
/// per backend.
pub const MODEL_DIR: &'static str = ".airs/models";

/// The user's home directory: the first of the two settings that is there, and
/// the empty path if neither is.
pub open spec fn home_of(home: Option<Seq<char>>, user_profile: Option<Seq<char>>) -> Seq<char> {
    match (home, user_profile) {
        (Some(path), _) => path,
        (None, Some(path)) => path,
        (None, None) => Seq::empty(),
    }
}

/// The characters of a setting.
pub open spec fn setting(value: Option<String>) -> Option<Seq<char>> {
    match value {
        Some(text) => Some(text@),
        None => None,
    }
}

/// The characters of each part of a path.
pub open spec fn part_views(parts: Seq<String>) -> Seq<Seq<char>> {
    parts.map_values(|part: String| part@)
}

/// The directory of all models, as the parts that are to be joined to a path.
/// `home` and `user_profile` are what `HOME` and `USERPROFILE` are set to.
pub fn model_dir(home: Option<String>, user_profile: Option<String>) -> (parts: Vec<String>)
    ensures
        part_views(parts@) == seq![home_of(setting(home), setting(user_profile)), ".airs/models"@],
{
    let base: String = match home {
        Some(path) => path,
        None => match user_profile {
            Some(path) => path,
            None => String::new(),
        },
    };
    let mut parts: Vec<String> = Vec::new();
    parts.push(base);
    parts.push(MODEL_DIR.to_owned());
    assert(part_views(parts@) =~= seq![
        home_of(setting(home), setting(user_profile)),
        ".airs/models"@,
    ]);
    parts
}

/// The directory of the model `name`, as the parts that are to be joined to a path.
pub fn model_path(home: Option<String>, user_profile: Option<String>, name: &str) -> (parts: Vec<
    String,
>)
    ensures
        part_views(parts@) == seq![
            home_of(setting(home), setting(user_profile)),
            ".airs/models"@,
            name@,
        ],
{
    let mut parts = model_dir(home, user_profile);
    let ghost before = part_views(parts@);
    parts.push(name.to_owned());
    assert(part_views(parts@) =~= before.push(name@));
    assert(before.push(name@) =~= seq![
        home_of(setting(home), setting(user_profile)),
        ".airs/models"@,
        name@,
    ]);
    parts
}

proof fn first_covered_is_first(names: Seq<String>, pattern: NamePattern, from: int)
    requires
        0 <= from,
    ensures
        match first_covered(names, pattern, from) {
            Some(i) => {
                &&& from <= i < names.len()
                &&& pattern.covers(names[i]@)
                &&& forall|j: int| from <= j < i ==> !pattern.covers(#[trigger] names[j]@)
            },
            None => forall|j: int| from <= j < names.len() ==> !pattern.covers(
                #[trigger] names[j]@,
            ),
        },
    decreases names.len() - from,
{
    if from < names.len() && !pattern.covers(names[from]@) {
        first_covered_is_first(names, pattern, from + 1);
    }
}

proof fn first_covered_entry_is_first(entries: Seq<ModelEntry>, pattern: NamePattern, from: int)
    requires
        0 <= from,
    ensures
        match first_covered_entry(entries, pattern, from) {
            Some(i) => {
                &&& from <= i < entries.len()
                &&& pattern.covers(entries[i].name@)
                &&& forall|j: int| from <= j < i ==> !pattern.covers(#[trigger] entries[j].name@)
            },
            None => forall|j: int| from <= j < entries.len() ==> !pattern.covers(
                #[trigger] entries[j].name@,
            ),
        },
    decreases entries.len() - from,
{
    if from < entries.len() && !pattern.covers(entries[from].name@) {
        first_covered_entry_is_first(entries, pattern, from + 1);
    }
}

/// A directory holds the file, under its plain name or a covered one.
pub open spec fn child_holds(child: ChildDir, pattern: NamePattern) -> bool {
    child.exact || exists|k: int|
        0 <= k < child.names@.len() && pattern.covers(#[trigger] child.names@[k]@)
}

/// The entry is a directory that holds the file.
pub open spec fn entry_holds(entry: ModelEntry, pattern: NamePattern) -> bool {
    entry.child is Some && child_holds(entry.child->0, pattern)
}

proof fn first_in_child_is_first(entries: Seq<ModelEntry>, pattern: NamePattern, from: int)
    requires
        0 <= from,
        entries.len() <= usize::MAX,
    ensures
        match first_in_child(entries, pattern, from) {
            None => forall|i: int|
                from <= i < entries.len() ==> !entry_holds(#[trigger] entries[i], pattern),
            Some(FileLocation::ChildExact(i)) => {
                &&& from <= i < entries.len()
                &&& entries[i as int].child is Some
                &&& entries[i as int].child->0.exact
                &&& forall|j: int|
                    from <= j < i ==> !entry_holds(#[trigger] entries[j], pattern)
            },
            Some(FileLocation::ChildEntry(i, k)) => {
                &&& from <= i < entries.len()
                &&& entries[i as int].child is Some
                &&& !entries[i as int].child->0.exact
                &&& k < entries[i as int].child->0.names@.len()
                &&& pattern.covers(entries[i as int].child->0.names@[k as int]@)
                &&& forall|j: int|
                    0 <= j < k ==> !pattern.covers(
                        #[trigger] entries[i as int].child->0.names@[j]@,
                    )
                &&& forall|j: int|
                    from <= j < i ==> !entry_holds(#[trigger] entries[j], pattern)
            },
            Some(_) => false,
        },
    decreases entries.len() - from,
{
    if from < entries.len() {
        if entries[from].child is Some {
            let names = entries[from].child->0.names;
            assert(names.len() == names@.len());
            first_covered_is_first(names@, pattern, 0);
        }
        if !entry_holds(entries[from], pattern) {
            first_in_child_is_first(entries, pattern, from + 1);
        }
    }
}

/// The search misses nothing: it comes back without a file only if the plain name
/// does not exist, no entry of the directory is covered, and no directory below
/// holds the file.
pub proof fn location_misses_nothing(dir: ModelDir, pattern: NamePattern)
    ensures
        location(dir, pattern) is None <==> {
            &&& !dir.exact
            &&& forall|i: int|
                0 <= i < dir.entries@.len() ==> !pattern.covers(
                    (#[trigger] dir.entries@[i]).name@,
                ) && !entry_holds(dir.entries@[i], pattern)
        },
{
    assert(dir.entries.len() == dir.entries@.len());
    first_covered_entry_is_first(dir.entries@, pattern, 0);
    first_in_child_is_first(dir.entries@, pattern, 0);
}

/// The search goes from the plain name over the covered entries to the directories
/// below, and takes the first file of the first of these that has one.
pub proof fn location_takes_the_first(dir: ModelDir, pattern: NamePattern)
    ensures
        location(dir, pattern) == Some(FileLocation::Exact) <==> dir.exact,
        location(dir, pattern) matches Some(FileLocation::Entry(i)) ==> {
            &&& i < dir.entries@.len()
            &&& pattern.covers(dir.entries@[i as int].name@)
            &&& forall|j: int| 0 <= j < i ==> !pattern.covers((#[trigger] dir.entries@[j]).name@)
        },
        location(dir, pattern) matches Some(FileLocation::ChildExact(i)) ==> {
            &&& i < dir.entries@.len()
            &&& dir.entries@[i as int].child is Some
            &&& dir.entries@[i as int].child->0.exact
            &&& forall|j: int|
                0 <= j < dir.entries@.len() ==> !pattern.covers((#[trigger] dir.entries@[j]).name@)
            &&& forall|j: int| 0 <= j < i ==> !entry_holds(#[trigger] dir.entries@[j], pattern)
        },
        location(dir, pattern) matches Some(FileLocation::ChildEntry(i, k)) ==> {
            &&& i < dir.entries@.len()
            &&& dir.entries@[i as int].child is Some
            &&& !dir.entries@[i as int].child->0.exact
            &&& k < dir.entries@[i as int].child->0.names@.len()
            &&& pattern.covers(dir.entries@[i as int].child->0.names@[k as int]@)
            &&& forall|j: int|
                0 <= j < k ==> !pattern.covers(
                    #[trigger] dir.entries@[i as int].child->0.names@[j]@,
                )
            &&& forall|j: int|
                0 <= j < dir.entries@.len() ==> !pattern.covers((#[trigger] dir.entries@[j]).name@)
            &&& forall|j: int| 0 <= j < i ==> !entry_holds(#[trigger] dir.entries@[j], pattern)
        },
{
    assert(dir.entries.len() == dir.entries@.len());
    first_covered_entry_is_first(dir.entries@, pattern, 0);
    first_in_child_is_first(dir.entries@, pattern, 0);
}

/// Names after the custom of the model publishers are covered: anything, a hyphen and
/// the plain name.
pub proof fn suffixed_names_are_covered(head: Seq<char>, stem: &str)
    ensures
        (NamePattern::Suffixed { stem }).covers(head + ("-"@ + stem@)),
{
    reveal_strlit("-");
    let tail = "-"@ + stem@;
    let name = head + tail;
    assert(name.subrange((name.len() - tail.len()) as int, name.len() as int) =~= tail);
    assert(name.len() > stem@.len());
}

/// Names after the custom of the model publishers are covered: the beginning,
/// anything, and `.onnx`.
pub proof fn prefixed_names_are_covered(exact: &str, prefix: &str, middle: Seq<char>)
    ensures
        (NamePattern::Prefixed { exact, prefix }).covers(prefix@ + middle + ".onnx"@),
{
    let name = prefix@ + middle + ".onnx"@;
    assert(name.subrange(0, prefix@.len() as int) =~= prefix@);
    assert(name.subrange((name.len() - ".onnx"@.len()) as int, name.len() as int) =~= ".onnx"@);
}

} // verus!
