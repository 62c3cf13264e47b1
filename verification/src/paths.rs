//! File names and the places where the output of a conversion goes.
//!
//! A path is held as the list of its components, outermost first; a file's
//! name is the last of them.

use vstd::prelude::*;

verus! {

/// The position of the last dot of a name, or -1 where it has none.
pub open spec fn last_dot(name: Seq<char>) -> int
    decreases name.len(),
{
    if name.len() == 0 {
        -1
    } else if name.last() == '.' {
        name.len() - 1
    } else {
        last_dot(name.drop_last())
    }
}

/// The extension of a file name: what follows its last dot. A name without
/// a dot has none, nor has one whose only dot comes first.
pub open spec fn extension(name: Seq<char>) -> Option<Seq<char>> {
    if last_dot(name) > 0 {
        Some(name.skip(last_dot(name) + 1))
    } else {
        None
    }
}

/// The stem of a file name: what stands before its extension.
pub open spec fn file_stem(name: Seq<char>) -> Seq<char> {
    if last_dot(name) > 0 {
        name.take(last_dot(name))
    } else {
        name
    }
}

/// Whether a file name has the extension of an e-book, in exactly this
/// spelling.
pub open spec fn is_epub_name(name: Seq<char>) -> bool {
    extension(name) == Some("epub"@)
}

/// The name of the last component of a path; empty for a path without
/// components.
pub open spec fn file_name(path: Seq<Seq<char>>) -> Seq<char> {
    if path.len() > 0 {
        path.last()
    } else {
        Seq::empty()
    }
}

/// The path without its last component.
pub open spec fn parent(path: Seq<Seq<char>>) -> Seq<Seq<char>> {
    if path.len() > 0 {
        path.drop_last()
    } else {
        path
    }
}

/// The name of the directory that receives the output of a file: its stem
/// followed by `_markdown`.
pub open spec fn output_dir_name(name: Seq<char>) -> Seq<char> {
    file_stem(name) + "_markdown"@
}

/// A file's path as seen from a root directory: what follows the root where
/// the file lies under it, the whole path where it does not.
pub open spec fn relative_to(root: Seq<Seq<char>>, file: Seq<Seq<char>>) -> Seq<Seq<char>> {
    if root.is_prefix_of(file) {
        file.skip(root.len() as int)
    } else {
        file
    }
}

/// The output directory of a file that stands next to its source.
pub open spec fn sibling_output_dir(file: Seq<Seq<char>>) -> Seq<Seq<char>> {
    parent(file).push(output_dir_name(file_name(file)))
}

/// The output directory of a file found under `root`, mirrored under `base`:
/// the directories between the root and the file are kept.
pub open spec fn mirrored_output_dir(
    root: Seq<Seq<char>>,
    file: Seq<Seq<char>>,
    base: Seq<Seq<char>>,
) -> Seq<Seq<char>> {
    base + sibling_output_dir(relative_to(root, file))
}

/// Where the output of a file found under `root` goes: mirrored under the
/// output base where one is given, next to the source where none is.
pub open spec fn batch_output_dir(
    root: Seq<Seq<char>>,
    file: Seq<Seq<char>>,
    base: Option<Seq<Seq<char>>>,
) -> Seq<Seq<char>> {
    match base {
        Some(b) => mirrored_output_dir(root, file, b),
        None => sibling_output_dir(file),
    }
}

/// Where the output of a single file goes: the given directory where there
/// is one, next to the source where there is none.
pub open spec fn single_output_dir(
    file: Seq<Seq<char>>,
    output: Option<Seq<Seq<char>>>,
) -> Seq<Seq<char>> {
    match output {
        Some(dir) => dir,
        None => sibling_output_dir(file),
    }
}

/// An optional path, as components.
pub open spec fn path_view(path: Option<&Vec<String>>) -> Option<Seq<Seq<char>>> {
    match path {
        Some(p) => Some(p.deep_view()),
        None => None,
    }
}

/// Mirroring keeps the relative path: a file that lies under the root, some
/// directories down, goes the same directories down under the output base.
pub proof fn lemma_mirroring_keeps_relative_path(
    root: Seq<Seq<char>>,
    directories: Seq<Seq<char>>,
    name: Seq<char>,
    base: Seq<Seq<char>>,
)
    ensures
        mirrored_output_dir(root, root + directories.push(name), base) == (base
            + directories).push(output_dir_name(name)),
        sibling_output_dir(root + directories.push(name)) == (root + directories).push(
            output_dir_name(name),
        ),
{
}

/// Finds the last dot of a name: `Some` of its position, counted in
/// characters, or `None` where the name has no dot.
fn find_last_dot(name: &str) -> (found: Option<usize>)
    ensures
        found is Some <==> last_dot(name@) >= 0,
        found is Some ==> found->0 == last_dot(name@),
        last_dot(name@) < name@.len(),
{
    let mut found: Option<usize> = None;
    let mut i: usize = 0;
    let n = name.unicode_len();
    let chars = name.chars();
    for c in it: chars
        invariant
            it.seq() == name@,
            n == name@.len(),
            i == it.index(),
            found is Some <==> last_dot(name@.take(i as int)) >= 0,
            found is Some ==> found->0 == last_dot(name@.take(i as int)),
            last_dot(name@.take(i as int)) < i,
    {
        assert(name@.take(i + 1).drop_last() == name@.take(i as int));
        if c == '.' {
            found = Some(i);
        }
        i += 1;
    }
    assert(name@.take(name@.len() as int) == name@);
    found
}

/// Tells whether a file name has the extension `epub`, in exactly this
/// spelling.
pub fn has_epub_extension(name: &str) -> (b: bool)
    ensures
        b == is_epub_name(name@),
{
    match find_last_dot(name) {
        Some(dot) => {
            if dot > 0 {
                let n = name.unicode_len();
                let ext = name.substring_char(dot + 1, n);
                ext.to_owned() == "epub".to_owned()
            } else {
                false
            }
        },
        None => false,
    }
}

/// Names the directory that receives the output of a file: the file's stem
/// followed by `_markdown`.
pub fn output_dir_for(name: &str) -> (dir: String)
    ensures
        dir@ == output_dir_name(name@),
{
    let mut dir = match find_last_dot(name) {
        Some(dot) => {
            if dot > 0 {
                let stem = name.substring_char(0, dot);
                stem.to_owned()
            } else {
                name.to_owned()
            }
        },
        None => name.to_owned(),
    };
    dir.append("_markdown");
    dir
}

/// Appends copies of the components `from..to` of `source` to `target`.
fn extend_with(target: &mut Vec<String>, source: &Vec<String>, from: usize, to: usize)
    requires
        from <= to <= source@.len(),
    ensures
        final(target).deep_view() == old(target).deep_view() + source.deep_view().subrange(
            from as int,
            to as int,
        ),
{
    let mut i: usize = from;
    while i < to
        invariant
            from <= i <= to,
            to <= source@.len(),
            target.deep_view() == old(target).deep_view() + source.deep_view().subrange(
                from as int,
                i as int,
            ),
        decreases to - i,
    {
        let ghost before = target.deep_view();
        target.push(source[i].clone());
        assert(target.deep_view() == before.push(source@[i as int]@));
        i += 1;
    }
}

/// Tells whether a file lies under a root: whether the root's components are
/// the first components of the file's path.
pub fn is_under(root: &Vec<String>, file: &Vec<String>) -> (b: bool)
    ensures
        b == root.deep_view().is_prefix_of(file.deep_view()),
{
    if root.len() > file.len() {
        return false;
    }
    let mut i: usize = 0;
    while i < root.len()
        invariant
            i <= root@.len() <= file@.len(),
            forall|j: int| 0 <= j < i ==> root@[j]@ == file@[j]@,
        decreases root.len() - i,
    {
        if root[i] != file[i] {
            assert(root.deep_view()[i as int] != file.deep_view().subrange(
                0,
                root@.len() as int,
            )[i as int]);
            return false;
        }
        i += 1;
    }
    true
}

/// Appends to `target` the output directory that stands next to the file
/// whose path is the components `from..` of `file`.
fn push_sibling_output_dir(target: &mut Vec<String>, file: &Vec<String>, from: usize)
    requires
        from <= file@.len(),
    ensures
        final(target).deep_view() == old(target).deep_view() + sibling_output_dir(
            file.deep_view().skip(from as int),
        ),
{
    let ghost rest = file.deep_view().skip(from as int);
    let n = file.len();
    if from < n {
        extend_with(target, file, from, n - 1);
        let ghost middle = target.deep_view();
        target.push(output_dir_for(file[n - 1].as_str()));
        assert(target.deep_view() == middle.push(output_dir_name(file_name(rest))));
    } else {
        target.push(output_dir_for(""));
        assert(file_name(rest) == ""@) by {
            reveal_strlit("");
            assert(""@ =~= Seq::<char>::empty());
        }
    }
}

/// Computes where the output of a file found under `root` goes.
///
/// With an output base, the file's place under the root is mirrored under
/// the base: the directories between the root and the file are kept, and the
/// last component is the file's stem followed by `_markdown`. Without one,
/// that directory stands next to the file.
pub fn output_dir_in_batch(
    root: &Vec<String>,
    file: &Vec<String>,
    base: Option<&Vec<String>>,
) -> (dir: Vec<String>)
    ensures
        dir.deep_view() == batch_output_dir(root.deep_view(), file.deep_view(), path_view(base)),
{
    let mut dir: Vec<String> = Vec::new();
    match base {
        Some(b) => {
            extend_with(&mut dir, b, 0, b.len());
            if is_under(root, file) {
                push_sibling_output_dir(&mut dir, file, root.len());
            } else {
                push_sibling_output_dir(&mut dir, file, 0);
            }
        },
        None => {
            push_sibling_output_dir(&mut dir, file, 0);
        },
    }
    dir
}

/// Computes where the output of a single file goes: the given directory
/// where there is one; else a directory next to the file, named by the
/// file's stem followed by `_markdown`.
pub fn output_dir_for_single(
    file: &Vec<String>,
    output: Option<&Vec<String>>,
) -> (dir: Vec<String>)
    ensures
        dir.deep_view() == single_output_dir(file.deep_view(), path_view(output)),
{
    let mut dir: Vec<String> = Vec::new();
    match output {
        Some(o) => {
            extend_with(&mut dir, o, 0, o.len());
        },
        None => {
            push_sibling_output_dir(&mut dir, file, 0);
        },
    }
    dir
}

} // verus!
