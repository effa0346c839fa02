//! Where the pages of a site are written: a source path is cut into the
//! directory that holds it, its file name and its extension.

use vstd::prelude::*;

use crate::text::{
    after_first, after_last_pos, before_first, chars_of, find_after_last, find_first, first_pos,
    law_without_counts, lemma_after_last_pos, lemma_first_pos, push_range, push_range_without, push_str, without,
};

verus! {

/// The directories of `path`: everything up to and including its last `/`,
/// with every `.` left out (empty when `path` holds no `/`).
pub open spec fn spec_dir_part(path: Seq<char>) -> Seq<char> {
    without(path.take(after_last_pos(path, '/')), '.')
}

/// The last item of `path`: everything after its last `/`.
pub open spec fn spec_last_item(path: Seq<char>) -> Seq<char> {
    path.skip(after_last_pos(path, '/'))
}

/// The file name of `path`: its last item up to the first `.`.
pub open spec fn spec_file_name(path: Seq<char>) -> Seq<char> {
    before_first(spec_last_item(path), '.')
}

/// The extension of `path`: its last item after the first `.` (empty when
/// the last item holds no `.`).
pub open spec fn spec_extension(path: Seq<char>) -> Seq<char> {
    after_first(spec_last_item(path), '.')
}

/// Cuts `path` into the path before the file, the file name and the
/// extension, in that order.
pub fn get_workable_path(path: &str) -> (parts: (String, String, String))
    ensures
        parts.0@ == spec_dir_part(path@),
        parts.1@ == spec_file_name(path@),
        parts.2@ == spec_extension(path@),
{
    let cs = chars_of(path);
    let cut = find_after_last(&cs, '/');
    proof {
        lemma_after_last_pos(path@, '/');
    }
    let mut dir = String::new();
    push_range_without(&mut dir, &cs, 0, cut, '.');
    assert(cs@.subrange(0, cut as int) == cs@.take(cut as int));

    let mut item: Vec<char> = Vec::new();
    let mut i = cut;
    while i < cs.len()
        invariant
            cut <= i <= cs.len(),
            item@ == cs@.subrange(cut as int, i as int),
        decreases cs.len() - i,
    {
        item.push(cs[i]);
        i = i + 1;
    }
    assert(item@ == spec_last_item(path@));

    let dot = find_first(&item, '.');
    proof {
        lemma_first_pos(item@, '.');
    }
    let mut file_name = String::new();
    push_range(&mut file_name, &item, 0, dot);
    assert(file_name@ == item@.take(dot as int));

    let mut extension = String::new();
    if dot < item.len() {
        push_range(&mut extension, &item, dot + 1, item.len());
        assert(extension@ == item@.skip(dot + 1));
    }
    (dir, file_name, extension)
}

/// The file a page built from the source `name` is written to:
/// `./_site/<dir>/<file name>.<extension>`.
pub fn site_file_path(name: &str, extension: &str) -> (path: String)
    ensures
        path@ == "./_site/"@ + spec_dir_part(name@) + "/"@ + spec_file_name(name@) + "."@
            + extension@,
{
    let (dir, file_name, _) = get_workable_path(name);
    let mut path = String::new();
    push_str(&mut path, "./_site/");
    push_str(&mut path, dir.as_str());
    push_str(&mut path, "/");
    push_str(&mut path, file_name.as_str());
    push_str(&mut path, ".");
    push_str(&mut path, extension);
    path
}

/// The directory that must exist before the page built from the source
/// `name` is written, under the working directory `cwd`:
/// `<cwd>/_site/<dir>`.
pub fn site_dir_path(cwd: &str, name: &str) -> (path: String)
    ensures
        path@ == cwd@ + "/_site/"@ + spec_dir_part(name@),
{
    let (dir, _, _) = get_workable_path(name);
    let mut path = String::new();
    push_str(&mut path, cwd);
    push_str(&mut path, "/_site/");
    push_str(&mut path, dir.as_str());
    path
}

/// The last item of a path holds no `/`, and it is the file name
/// followed, when it holds a `.`, by that `.` and the extension; otherwise
/// it is the file name and the extension is empty. The file name holds no
/// `.`.
pub proof fn law_last_item_rebuilt(path: Seq<char>)
    ensures
        !spec_last_item(path).contains('/'),
        !spec_file_name(path).contains('.'),
        spec_last_item(path).contains('.') ==> spec_last_item(path) == spec_file_name(path)
            + seq!['.'] + spec_extension(path),
        !spec_last_item(path).contains('.') ==> spec_file_name(path) == spec_last_item(path)
            && spec_extension(path) == Seq::<char>::empty(),
{
    lemma_after_last_pos(path, '/');
    let cut = after_last_pos(path, '/');
    let item = spec_last_item(path);
    assert forall|j: int| 0 <= j < item.len() implies item[j] != '/' by {
        assert(item[j] == path[cut + j]);
    }
    lemma_first_pos(item, '.');
    let dot = first_pos(item, '.');
    assert forall|j: int| 0 <= j < spec_file_name(path).len() implies spec_file_name(path)[j]
        != '.' by {
        assert(spec_file_name(path)[j] == item[j]);
    }
    if dot < item.len() {
        assert(item =~= item.take(dot) + seq!['.'] + item.skip(dot + 1));
    } else {
        assert(item.take(dot) =~= item);
    }
}

/// The directory part of a path holds no `.` and, unless it is empty, ends
/// with `/`; it is empty exactly when the path holds no `/`.
pub proof fn law_dir_part_shape(path: Seq<char>)
    ensures
        !spec_dir_part(path).contains('.'),
        spec_dir_part(path).len() > 0 ==> spec_dir_part(path).last() == '/',
        spec_dir_part(path).len() == 0 <==> !path.contains('/'),
{
    lemma_after_last_pos(path, '/');
    let cut = after_last_pos(path, '/');
    let dirs = path.take(cut);
    let pred = |x: char| x != '.';
    assert forall|j: int| 0 <= j < dirs.filter(pred).len() implies dirs.filter(pred)[j]
        != '.' by {
        dirs.lemma_filter_pred(pred, j);
    }
    if cut > 0 {
        assert(dirs.last() == '/');
        reveal_with_fuel(Seq::filter, 1);
        assert(dirs.filter(pred) == dirs.drop_last().filter(pred).push('/'));
    } else {
        assert(dirs.len() == 0);
        reveal_with_fuel(Seq::filter, 1);
    }
}

/// The last item of a path is the end of the path after its last `/`: the
/// path ends with it, it holds no `/`, and what comes before it, if
/// anything, ends with `/`.
pub proof fn law_last_item_is_path_tail(path: Seq<char>)
    ensures
        spec_last_item(path).len() <= path.len(),
        path.skip(path.len() - spec_last_item(path).len()) == spec_last_item(path),
        !spec_last_item(path).contains('/'),
        spec_last_item(path).len() < path.len() ==> path[path.len() - spec_last_item(path).len()
            - 1] == '/',
{
    lemma_after_last_pos(path, '/');
    law_last_item_rebuilt(path);
}

/// The directory part of a path is what comes before its last item with
/// the dots dropped: it holds no `.`, and every other character as often as
/// that beginning of the path does.
pub proof fn law_dir_part_counts(path: Seq<char>)
    ensures
        forall|x: char|
            #[trigger] spec_dir_part(path).to_multiset().count(x) == if x == '.' {
                0
            } else {
                path.take(path.len() - spec_last_item(path).len()).to_multiset().count(x)
            },
{
    lemma_after_last_pos(path, '/');
    law_without_counts(path.take(after_last_pos(path, '/')), '.');
}

} // verus!
