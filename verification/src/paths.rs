//! Naming the output file after the input file.

use std::path::{Path, PathBuf};
use vstd::prelude::*;

verus! {

/// The final component of `path` as `Path::file_name` gives it: `None` when
/// the path ends in `..` or has no final component.
pub uninterp spec fn path_file_name_of(path: Seq<char>) -> Option<Seq<char>>;

/// The path that `PathBuf::set_file_name` makes of `path` with file name `name`.
pub uninterp spec fn path_with_file_name_of(path: Seq<char>, name: Seq<char>) -> Seq<char>;

/// The path that `Path::parent` gives for `path`.
pub uninterp spec fn path_parent_of(path: Seq<char>) -> Option<Seq<char>>;

/// The path that `PathBuf::push` makes of `path` with `component` pushed.
pub uninterp spec fn path_pushed_of(path: Seq<char>, component: Seq<char>) -> Seq<char>;

/// A file name that is one normal path component on Unix, where `/` is the
/// only separator: not empty, free of separators, and neither `.` nor `..`.
pub open spec fn is_plain_name(name: Seq<char>) -> bool {
    &&& name.len() > 0
    &&& forall|i: int| 0 <= i < name.len() ==> name[i] != '/'
    &&& name != "."@
    &&& name != ".."@
}

/// The index of the last `.` in `name`, or `-1`.
pub open spec fn last_dot(name: Seq<char>) -> int
    decreases name.len(),
{
    if name.len() == 0 {
        -1
    } else if name.last() == '.' {
        name.len() - 1
    } else {
        last_dot(name.drop_last())
    }
}

/// The stem of a file name: all of it when it holds no `.` but maybe a
/// leading one, and the part before the final `.` otherwise.
pub open spec fn stem_of(name: Seq<char>) -> Seq<char> {
    if last_dot(name) <= 0 {
        name
    } else {
        name.take(last_dot(name))
    }
}

/// The extension of a file name: none when it holds no `.` but maybe a
/// leading one, and the part after the final `.` otherwise.
pub open spec fn extension_of(name: Seq<char>) -> Option<Seq<char>> {
    if last_dot(name) <= 0 {
        None
    } else {
        Some(name.skip(last_dot(name) + 1))
    }
}

/// The stem of the file name of `path` (`Path::file_stem`).
pub open spec fn path_stem_of(path: Seq<char>) -> Option<Seq<char>> {
    match path_file_name_of(path) {
        Some(name) => Some(stem_of(name)),
        None => None,
    }
}

/// The extension of the file name of `path` (`Path::extension`).
pub open spec fn path_extension_of(path: Seq<char>) -> Option<Seq<char>> {
    match path_file_name_of(path) {
        Some(name) => extension_of(name),
        None => None,
    }
}

/// The view of an optional text.
pub open spec fn opt_view(t: Option<String>) -> Option<Seq<char>> {
    match t {
        Some(s) => Some(s@),
        None => None,
    }
}

/// `Path::file_name` of `path`. A path made from a `&str` splits into
/// components that are valid UTF-8, so the conversion back to text is exact.
/// A file name is the final component when that is a normal one, so it is
/// a plain name (on Unix paths, which this library handles).
#[verifier::external_body]
pub(crate) fn path_file_name(path: &str) -> (r: Option<String>)
    ensures
        opt_view(r) == path_file_name_of(path@),
        r matches Some(n) ==> is_plain_name(n@),
{
    match Path::new(path).file_name() {
        Some(name) => Some(name.to_string_lossy().into_owned()),
        None => None,
    }
}

/// `Path::file_stem` of `path`: as its documentation says, the stem of the
/// file name, when there is one; that file name, a normal final component,
/// is a plain name (on Unix paths).
#[verifier::external_body]
fn path_file_stem(path: &str) -> (r: Option<String>)
    ensures
        opt_view(r) == path_stem_of(path@),
        r is Some ==> (path_file_name_of(path@) matches Some(n) && is_plain_name(n)),
{
    match Path::new(path).file_stem() {
        Some(stem) => Some(stem.to_string_lossy().into_owned()),
        None => None,
    }
}

/// `Path::extension` of `path`: as its documentation says, the extension of
/// the file name, when there is one.
#[verifier::external_body]
fn path_extension(path: &str) -> (r: Option<String>)
    ensures
        opt_view(r) == path_extension_of(path@),
{
    match Path::new(path).extension() {
        Some(ext) => Some(ext.to_string_lossy().into_owned()),
        None => None,
    }
}

/// `PathBuf::set_file_name` on `path` with `name`; the result is `path`
/// with its final component replaced by `name` (or `name` pushed when there
/// is none), which the contract leaves to the name. As the documentation
/// says, it updates the file name to `name` (claimed for a name that is one
/// normal component), and, when there was a file name, the new path is a
/// sibling of the old one: it has the same parent.
#[verifier::external_body]
fn path_with_file_name(path: &str, name: &str) -> (r: String)
    ensures
        r@ == path_with_file_name_of(path@, name@),
        is_plain_name(name@) ==> path_file_name_of(r@) == Some(name@),
        is_plain_name(name@) && path_file_name_of(path@) is Some ==> path_parent_of(r@) == path_parent_of(
            path@,
        ),
{
    let mut p = PathBuf::from(path);
    p.set_file_name(name);
    p.to_string_lossy().into_owned()
}

/// `Path::parent` of `path`.
#[verifier::external_body]
pub(crate) fn path_parent(path: &str) -> (r: Option<String>)
    ensures
        opt_view(r) == path_parent_of(path@),
{
    match Path::new(path).parent() {
        Some(parent) => Some(parent.to_string_lossy().into_owned()),
        None => None,
    }
}

/// `PathBuf::push` of `component` onto `path`.
#[verifier::external_body]
pub(crate) fn path_pushed(path: &str, component: &str) -> (r: String)
    ensures
        r@ == path_pushed_of(path@, component@),
{
    let mut p = PathBuf::from(path);
    p.push(component);
    p.to_string_lossy().into_owned()
}

/// The file name of an edited copy: the stem (`media` when there is none),
/// `_edited`, a dot, and the extension (`mkv` when there is none).
pub open spec fn edited_name(stem: Option<Seq<char>>, extension: Option<Seq<char>>) -> Seq<char> {
    (match stem {
        Some(s) => s,
        None => "media"@,
    }) + "_edited."@ + (match extension {
        Some(e) => e,
        None => "mkv"@,
    })
}

/// The file name `{stem}_edited.{extension}`, with `media` and `mkv` for
/// a missing stem and extension.
pub fn edited_file_name(stem: Option<String>, extension: Option<String>) -> (name: String)
    ensures
        name@ == edited_name(opt_view(stem), opt_view(extension)),
{
    let mut name = match stem {
        Some(s) => s,
        None => "media".to_owned(),
    };
    name.append("_edited.");
    match extension {
        Some(e) => name.append(e.as_str()),
        None => name.append("mkv"),
    }
    name
}

/// The path of the edited copy of the file at `path`.
pub open spec fn edited_path_of(path: Seq<char>) -> Seq<char> {
    path_with_file_name_of(path, edited_name(path_stem_of(path), path_extension_of(path)))
}

/// Returns the path with a filename that has `_edited` appended,
/// while still preserving the original extension.
pub fn edited(path: String) -> (r: String)
    ensures
        r@ == edited_path_of(path@),
        edited_parts(path@, r@),
{
    let stem = path_file_stem(path.as_str());
    let extension = path_extension(path.as_str());
    let name = edited_file_name(stem, extension);
    proof {
        lemma_edited_name_fits(path@);
    }
    path_with_file_name(path.as_str(), name.as_str())
}

/// Returns a path with a different filename: that of the edited copy
/// (see [`edited`]).
pub fn modify_path(path: String) -> (r: String)
    ensures
        r@ == edited_path_of(path@),
        edited_parts(path@, r@),
{
    let name = edited_file_name(path_file_stem(path.as_str()), path_extension(path.as_str()));
    proof {
        lemma_edited_name_fits(path@);
    }
    path_with_file_name(path.as_str(), name.as_str())
}

/// What the path `r` of the edited copy of the file at `path` is made of:
/// the same parent folder, and as file name the stem with `_edited`
/// appended and the extension kept (`mkv` when there is none); for a path
/// without a file name, the file name `media_edited.mkv`.
pub open spec fn edited_parts(path: Seq<char>, r: Seq<char>) -> bool {
    match path_file_name_of(path) {
        Some(n) => {
            &&& path_file_name_of(r) == Some(edited_name(Some(stem_of(n)), extension_of(n)))
            &&& path_parent_of(r) == path_parent_of(path)
            &&& path_stem_of(r) == Some(stem_of(n) + "_edited"@)
            &&& path_extension_of(r) == Some(
                match extension_of(n) {
                    Some(e) => e,
                    None => "mkv"@,
                },
            )
        },
        None => path_file_name_of(r) == Some(edited_name(None, None)),
    }
}

/// The edited name of a plain file name is itself plain, with the parts
/// `edited_parts` speaks of.
proof fn lemma_edited_name_fits(path: Seq<char>)
    ensures
        match path_file_name_of(path) {
            Some(n) => is_plain_name(n) ==> {
                let e = edited_name(Some(stem_of(n)), extension_of(n));
                &&& is_plain_name(e)
                &&& stem_of(e) == stem_of(n) + "_edited"@
                &&& extension_of(e) == Some(
                    match extension_of(n) {
                        Some(x) => x,
                        None => "mkv"@,
                    },
                )
            },
            None => is_plain_name(edited_name(None, None)),
        },
{
    reveal_strlit("_edited.");
    reveal_strlit("mkv");
    reveal_strlit("media");
    reveal_strlit(".");
    reveal_strlit("..");
    match path_file_name_of(path) {
        Some(n) => {
            if is_plain_name(n) {
                lemma_last_dot_is_last(n);
                lemma_extension_has_no_dot(n);
                let s = stem_of(n);
                let x = match extension_of(n) {
                    Some(x) => x,
                    None => "mkv"@,
                };
                assert(forall|i: int| 0 <= i < x.len() ==> x[i] != '.');
                let e = edited_name(Some(s), extension_of(n));
                assert(e =~= edited_name(Some(s), Some(x)));
                lemma_edited_name_parts(s, x);
                assert forall|i: int| 0 <= i < s.len() implies s[i] != '/' by {
                    assert(s[i] == n[i]);
                }
                assert forall|i: int| 0 <= i < x.len() implies x[i] != '/' by {
                    if extension_of(n) is Some {
                        assert(x[i] == n[last_dot(n) + 1 + i]);
                    }
                }
                let h = s + "_edited."@;
                assert(e =~= h + x);
                assert forall|i: int| 0 <= i < e.len() implies e[i] != '/' by {
                    if i < s.len() {
                        assert(e[i] == s[i]);
                    } else if i < h.len() {
                        assert(e[i] == "_edited."@[i - s.len()]);
                    } else {
                        assert(e[i] == x[i - h.len()]);
                    }
                }
                assert(e.len() > 2);
            }
        },
        None => {
            let e = edited_name(None, None);
            assert(e =~= "media"@ + "_edited."@ + "mkv"@);
            assert forall|i: int| 0 <= i < e.len() implies e[i] != '/' by {
                if i < 5 {
                } else if i < 13 {
                    assert(e[i] == "_edited."@[i - 5]);
                } else {
                    assert(e[i] == "mkv"@[i - 13]);
                }
            }
            assert(e.len() > 2);
        },
    }
}

/// Appending text without a dot keeps the last dot where it was.
proof fn lemma_last_dot_append(a: Seq<char>, b: Seq<char>)
    requires
        forall|i: int| 0 <= i < b.len() ==> b[i] != '.',
    ensures
        last_dot(a + b) == last_dot(a),
    decreases b.len(),
{
    if b.len() > 0 {
        let b1 = b.drop_last();
        assert((a + b).drop_last() =~= a + b1);
        lemma_last_dot_append(a, b1);
    } else {
        assert(a + b =~= a);
    }
}

/// The edited name keeps the extension and adds `_edited` to the stem:
/// for a stem and an extension without a dot (as every extension is), the
/// extension of the edited name is that extension, and its stem is the
/// stem followed by `_edited`.
pub proof fn lemma_edited_name_parts(stem: Seq<char>, extension: Seq<char>)
    requires
        forall|i: int| 0 <= i < extension.len() ==> extension[i] != '.',
    ensures
        extension_of(edited_name(Some(stem), Some(extension))) == Some(extension),
        stem_of(edited_name(Some(stem), Some(extension))) == stem + "_edited"@,
{
    reveal_strlit("_edited.");
    reveal_strlit("_edited");
    let head = stem + "_edited."@;
    let name = edited_name(Some(stem), Some(extension));
    assert(name =~= head + extension);
    lemma_last_dot_append(head, extension);
    assert(head.last() == '.');
    assert(last_dot(head) == head.len() - 1);
    assert(name.skip(last_dot(name) + 1) =~= extension);
    assert(name.take(last_dot(name)) =~= stem + "_edited"@);
}

/// The last dot is a dot, and none follows it.
proof fn lemma_last_dot_is_last(name: Seq<char>)
    ensures
        -1 <= last_dot(name) < name.len(),
        last_dot(name) >= 0 ==> name[last_dot(name)] == '.',
        forall|j: int| last_dot(name) < j < name.len() ==> name[j] != '.',
    decreases name.len(),
{
    if name.len() > 0 && name.last() != '.' {
        let d = name.drop_last();
        lemma_last_dot_is_last(d);
        assert forall|j: int| last_dot(name) < j < name.len() implies name[j] != '.' by {
            if j < name.len() - 1 {
                assert(name[j] == d[j]);
            }
        }
    }
}

/// Every extension is free of dots: it is what follows the last one.
pub proof fn lemma_extension_has_no_dot(name: Seq<char>)
    ensures
        extension_of(name) matches Some(e) ==> forall|i: int| 0 <= i < e.len() ==> e[i] != '.',
{
    lemma_last_dot_is_last(name);
    if let Some(e) = extension_of(name) {
        assert forall|i: int| 0 <= i < e.len() implies e[i] != '.' by {
            assert(e[i] == name[last_dot(name) + 1 + i]);
        }
    }
}

/// Editing a file name keeps its extension and appends `_edited` to its stem.
pub proof fn lemma_edited_keeps_extension(name: Seq<char>)
    requires
        extension_of(name) is Some,
    ensures
        extension_of(edited_name(Some(stem_of(name)), extension_of(name))) == extension_of(name),
        stem_of(edited_name(Some(stem_of(name)), extension_of(name))) == stem_of(name) + "_edited"@,
{
    lemma_extension_has_no_dot(name);
    lemma_edited_name_parts(stem_of(name), extension_of(name).unwrap());
}

} // verus!
