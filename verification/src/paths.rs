//! Paths as texts: spelled out in the syntax of Unix, named in that of Windows.
use vstd::prelude::*;
use vstd::slice::slice_subrange;

use crate::platform::{Platform, System};
use crate::text::chars::{opt_text, same_text, texts, to_chars, to_text};
use crate::text::lines::join;

verus! {

/// The path starts at the root.
pub open spec fn absolute(path: Seq<char>) -> bool {
    path.len() > 0 && path[0] == '/'
}

/// The path of a part below a base. An absolute part stands for itself.
pub open spec fn joined(base: Seq<char>, part: Seq<char>) -> Seq<char> {
    if absolute(part) {
        part
    } else if base.len() == 0 || base.last() == '/' {
        base + part
    } else {
        base + "/"@ + part
    }
}

/// The length of the run of characters before the first slash.
pub open spec fn segment_len(path: Seq<char>) -> nat
    decreases path.len(),
{
    if path.len() == 0 || path.first() == '/' {
        0
    } else {
        1 + segment_len(path.drop_first())
    }
}

pub proof fn lemma_segment_len(path: Seq<char>)
    ensures
        segment_len(path) <= path.len(),
        segment_len(path) < path.len() ==> path[segment_len(path) as int] == '/',
        forall|i: int| 0 <= i < segment_len(path) ==> #[trigger] path[i] != '/',
    decreases path.len(),
{
    if path.len() > 0 && path.first() != '/' {
        let rest = path.drop_first();
        lemma_segment_len(rest);
        if segment_len(path) < path.len() {
            assert(rest[segment_len(rest) as int] == path[segment_len(path) as int]);
        }
        assert forall|i: int| 0 <= i < segment_len(path) implies #[trigger] path[i] != '/' by {
            if i > 0 {
                assert(rest[i - 1] == path[i]);
            }
        }
    }
}

/// What stands behind the first segment and the slash that ends it.
pub open spec fn behind_segment(path: Seq<char>) -> Seq<char> {
    if segment_len(path) < path.len() {
        path.skip(segment_len(path) as int + 1)
    } else {
        seq![]
    }
}

/// The names that a path goes through. Empty names do not count, nor does `.`,
/// except where a path that is not absolute begins with it.
pub open spec fn names(path: Seq<char>, front: bool) -> Seq<Seq<char>>
    decreases path.len(),
    via names_decreases
{
    if path.len() == 0 {
        seq![]
    } else {
        let name = path.take(segment_len(path) as int);
        let rest = names(behind_segment(path), false);
        if name.len() == 0 || (name == "."@ && !front) {
            rest
        } else {
            seq![name] + rest
        }
    }
}

#[via_fn]
proof fn names_decreases(path: Seq<char>, front: bool) {
    lemma_segment_len(path);
}

/// What a path comes to when it is compared: whether it starts at the root, and
/// the names that it goes through.
pub open spec fn route(path: Seq<char>) -> (bool, Seq<Seq<char>>) {
    if absolute(path) {
        (true, names(path.skip(1), false))
    } else {
        (false, names(path, true))
    }
}

/// Whether the path starts at the root.
pub fn is_absolute(path: &str) -> (out: bool)
    ensures
        out == absolute(path@),
{
    let chars = to_chars(path);
    chars.len() > 0 && chars[0] == '/'
}

/// The path of a part below a base.
pub fn join_path(base: &str, part: &str) -> (out: String)
    ensures
        out@ == joined(base@, part@),
{
    if is_absolute(part) {
        return part.to_owned();
    }
    let chars = to_chars(base);
    let n = chars.len();
    let mut out = base.to_owned();
    if n > 0 && chars[n - 1] != '/' {
        out.append("/");
    }
    out.append(part);
    out
}

fn path_names(chars: &[char], front: bool) -> (out: Vec<String>)
    ensures
        texts(out@) == names(chars@, front),
{
    let mut out: Vec<String> = Vec::new();
    let mut rest = chars;
    let mut at_front = front;
    assert(texts(out@) + names(rest@, at_front) =~= names(chars@, front));
    while rest.len() > 0
        invariant
            texts(out@) + names(rest@, at_front) == names(chars@, front),
        decreases rest@.len(),
    {
        let ghost before = texts(out@);
        let ghost path = rest@;
        proof {
            lemma_segment_len(path);
        }
        let n = slice_segment_len(rest);
        let name = to_text(slice_subrange(rest, 0, n));
        assert(name@ =~= path.take(n as int));
        let behind = if n < rest.len() {
            slice_subrange(rest, n + 1, rest.len())
        } else {
            slice_subrange(rest, n, n)
        };
        assert(behind@ =~= behind_segment(path));
        let skipped = n == 0 || (same_text(name.as_str(), ".") && !at_front);
        if !skipped {
            out.push(name);
            assert(texts(out@) =~= before.push(name@));
        }
        assert(texts(out@) + names(behind@, false) =~= before + names(path, at_front));
        rest = behind;
        at_front = false;
    }
    assert(texts(out@) + names(rest@, at_front) =~= texts(out@));
    out
}

fn slice_segment_len(chars: &[char]) -> (out: usize)
    ensures
        out == segment_len(chars@),
{
    let mut i: usize = 0;
    assert(chars@.skip(0) =~= chars@);
    while i < chars.len() && chars[i] != '/'
        invariant
            i <= chars@.len(),
            segment_len(chars@) == i + segment_len(chars@.skip(i as int)),
        decreases chars@.len() - i,
    {
        assert(chars@.skip(i as int).drop_first() =~= chars@.skip(i + 1));
        assert(chars@.skip(i as int).first() == chars@[i as int]);
        i += 1;
    }
    assert(i < chars@.len() ==> chars@.skip(i as int).first() == chars@[i as int]);
    i
}

/// Whether two lists of texts are the same.
pub fn same_texts(left: &Vec<String>, right: &Vec<String>) -> (out: bool)
    ensures
        out == (texts(left@) == texts(right@)),
{
    if left.len() != right.len() {
        assert(texts(left@).len() != texts(right@).len());
        return false;
    }
    let mut i: usize = 0;
    while i < left.len()
        invariant
            i <= left@.len(),
            left@.len() == right@.len(),
            forall|j: int| 0 <= j < i ==> #[trigger] left@[j]@ == right@[j]@,
        decreases left@.len() - i,
    {
        if !same_text(left[i].as_str(), right[i].as_str()) {
            assert(texts(left@)[i as int] != texts(right@)[i as int]);
            return false;
        }
        i += 1;
    }
    assert(texts(left@) =~= texts(right@));
    true
}

/// Whether two paths go the same way.
pub fn same_path(left: &str, right: &str) -> (out: bool)
    ensures
        out == (route(left@) == route(right@)),
{
    let left_root = is_absolute(left);
    let right_root = is_absolute(right);
    if left_root != right_root {
        return false;
    }
    let left_chars = to_chars(left);
    let right_chars = to_chars(right);
    let (left_names, right_names) = if left_root {
        let l = slice_subrange(left_chars.as_slice(), 1, left_chars.len());
        let r = slice_subrange(right_chars.as_slice(), 1, right_chars.len());
        assert(l@ =~= left@.skip(1));
        assert(r@ =~= right@.skip(1));
        (path_names(l, false), path_names(r, false))
    } else {
        (
            path_names(left_chars.as_slice(), true),
            path_names(right_chars.as_slice(), true),
        )
    };
    same_texts(&left_names, &right_names)
}

/// The last name of a path, unless it leads back or nowhere.
pub open spec fn last_name(path: Seq<char>) -> Option<Seq<char>> {
    let list = route(path).1;
    if list.len() == 0 || list.last() == ".."@ || list.last() == "."@ {
        None
    } else {
        Some(list.last())
    }
}

/// The last name of a path, unless it leads back or nowhere.
pub fn file_name(path: &str) -> (out: Option<String>)
    ensures
        opt_text(out) == last_name(path@),
{
    let chars = to_chars(path);
    let mut list = if is_absolute(path) {
        let rest = slice_subrange(chars.as_slice(), 1, chars.len());
        assert(rest@ =~= path@.skip(1));
        path_names(rest, false)
    } else {
        path_names(chars.as_slice(), true)
    };
    match list.pop() {
        Some(name) => {
            if same_text(name.as_str(), "..") || same_text(name.as_str(), ".") {
                None
            } else {
                Some(name)
            }
        },
        None => None,
    }
}

/// The names that are left of a path's names when `.` is dropped, and `..` with
/// the name that it leads back from. At the root `..` leads nowhere; at the front
/// of a path that is not absolute it stays.
pub open spec fn tidied(rooted: bool, list: Seq<Seq<char>>) -> Seq<Seq<char>>
    decreases list.len(),
{
    if list.len() == 0 {
        seq![]
    } else {
        let kept = tidied(rooted, list.drop_last());
        let name = list.last();
        if name == "."@ {
            kept
        } else if name != ".."@ {
            kept.push(name)
        } else if kept.len() > 0 && kept.last() != ".."@ {
            kept.drop_last()
        } else if rooted {
            kept
        } else {
            kept.push(name)
        }
    }
}

/// The path that goes through the given names.
pub open spec fn path_through(rooted: bool, list: Seq<Seq<char>>) -> Seq<char> {
    if rooted {
        "/"@ + join(list, "/"@)
    } else if list.len() == 0 {
        "."@
    } else {
        join(list, "/"@)
    }
}

/// The shortest path that leads the same way by its text alone.
pub open spec fn cleaned_path(path: Seq<char>) -> Seq<char> {
    let (rooted, list) = route(path);
    path_through(rooted, tidied(rooted, list))
}

/// A path without the separators and the names `.` at its end. The root stays, and
/// so does a `.` that is all there is.
pub open spec fn without_end(path: Seq<char>) -> Seq<char>
    decreases path.len(),
{
    let n = path.len();
    if n > 1 && (path.last() == '/' || (path.last() == '.' && path[n - 2] == '/')) {
        without_end(path.drop_last())
    } else {
        path
    }
}

/// A path without its last segment: what stands up to its last slash.
pub open spec fn up_to_slash(path: Seq<char>) -> Seq<char>
    decreases path.len(),
{
    if path.len() == 0 || path.last() == '/' {
        path
    } else {
        up_to_slash(path.drop_last())
    }
}

/// The path of the directory that a path leads to something in, if it is neither
/// empty nor the root.
pub open spec fn parent_path(path: Seq<char>) -> Option<Seq<char>> {
    let whole = without_end(path);
    if whole.len() == 0 || whole == "/"@ {
        None
    } else {
        Some(without_end(up_to_slash(whole)))
    }
}

fn slice_without_end(chars: &[char]) -> (out: &[char])
    ensures
        out@ == without_end(chars@),
        out@.len() <= chars@.len(),
{
    let mut n = chars.len();
    assert(chars@.take(n as int) =~= chars@);
    while n > 1 && (chars[n - 1] == '/' || (chars[n - 1] == '.' && chars[n - 2] == '/'))
        invariant
            n <= chars@.len(),
            without_end(chars@) == without_end(chars@.take(n as int)),
        decreases n,
    {
        assert(chars@.take(n as int).drop_last() =~= chars@.take(n - 1));
        n -= 1;
    }
    let out = slice_subrange(chars, 0, n);
    assert(out@ =~= chars@.take(n as int));
    out
}

fn slice_up_to_slash(chars: &[char]) -> (out: &[char])
    ensures
        out@ == up_to_slash(chars@),
{
    let mut n = chars.len();
    assert(chars@.take(n as int) =~= chars@);
    while n > 0 && chars[n - 1] != '/'
        invariant
            n <= chars@.len(),
            up_to_slash(chars@) == up_to_slash(chars@.take(n as int)),
        decreases n,
    {
        assert(chars@.take(n as int).drop_last() =~= chars@.take(n - 1));
        n -= 1;
    }
    let out = slice_subrange(chars, 0, n);
    assert(out@ =~= chars@.take(n as int));
    out
}

/// The path of the directory that a path leads to something in.
pub fn parent(path: &str) -> (out: Option<String>)
    ensures
        opt_text(out) == parent_path(path@),
{
    let chars = to_chars(path);
    let whole = slice_without_end(chars.as_slice());
    proof {
        reveal_strlit("/");
    }
    if whole.len() == 0 || (whole.len() == 1 && whole[0] == '/') {
        assert(whole.len() == 1 ==> whole@ =~= "/"@);
        return None;
    }
    assert(whole@ != "/"@);
    Some(to_text(slice_without_end(slice_up_to_slash(whole))))
}

/// The shortest path that leads the same way by its text alone, where paths have
/// the syntax of Windows.
pub uninterp spec fn cleaned_on_windows(path: Seq<char>) -> Seq<char>;

/// The path of a part below a base, where paths have the syntax of Windows.
pub uninterp spec fn joined_by_windows(base: Seq<char>, part: Seq<char>) -> Seq<char>;

/// Whether two paths go the same way, where they have the syntax of Windows.
pub uninterp spec fn same_on_windows(left: Seq<char>, right: Seq<char>) -> bool;

/// The last name of a path, where paths have the syntax of Windows.
pub uninterp spec fn last_name_on_windows(path: Seq<char>) -> Option<Seq<char>>;

/// The path of the directory that a path leads to something in, where paths have
/// the syntax of Windows.
pub uninterp spec fn parent_on_windows(path: Seq<char>) -> Option<Seq<char>>;

/// `path_clean::clean` makes of a path, by its text alone, the shortest that
/// leads the same way: without repeated separators, without `.`, and without `..`
/// where it can be resolved; what comes to nothing is `.`. What that is on Windows,
/// with its drives and its two separators, is named, not spelled out.
#[verifier::external_body]
pub(crate) fn clean_path(system: System, path: &str) -> (out: String)
    ensures
        out@ == (match system.family() {
            Platform::Unix => cleaned_path(path@),
            Platform::Windows => cleaned_on_windows(path@),
        }),
{
    path_clean::clean(path).to_string_lossy().into_owned()
}

/// `std::path::Path::join` puts a path below another. What comes of it on Windows
/// is named, not spelled out; of other systems nothing is claimed.
#[verifier::external_body]
fn join_natively(system: System, base: &str, part: &str) -> (out: String)
    ensures
        system.family() is Windows ==> out@ == joined_by_windows(base@, part@),
{
    std::path::Path::new(base).join(part).to_string_lossy().into_owned()
}

/// `==` on `std::path::Path` tells whether two paths have the same components. When
/// that is so on Windows is named, not spelled out; of other systems nothing is
/// claimed.
#[verifier::external_body]
fn same_natively(system: System, left: &str, right: &str) -> (out: bool)
    ensures
        system.family() is Windows ==> out == same_on_windows(left@, right@),
{
    std::path::Path::new(left) == std::path::Path::new(right)
}

/// `std::path::Path::file_name` gives the last component of a path if it is a
/// name. Which that is on Windows is named, not spelled out; of other systems
/// nothing is claimed.
#[verifier::external_body]
fn file_name_natively(system: System, path: &str) -> (out: Option<String>)
    ensures
        system.family() is Windows ==> opt_text(out) == last_name_on_windows(path@),
{
    std::path::Path::new(path).file_name().map(|name| name.to_string_lossy().into_owned())
}

/// `std::path::Path::parent` gives a path without its last component, if there is
/// one. What that is on Windows is named, not spelled out; of other systems nothing
/// is claimed.
#[verifier::external_body]
fn parent_natively(system: System, path: &str) -> (out: Option<String>)
    ensures
        system.family() is Windows ==> opt_text(out) == parent_on_windows(path@),
{
    std::path::Path::new(path).parent().map(|parent| parent.to_string_lossy().into_owned())
}

/// The path of a part below a base.
pub open spec fn joined_on(platform: Platform, base: Seq<char>, part: Seq<char>) -> Seq<char> {
    match platform {
        Platform::Unix => joined(base, part),
        Platform::Windows => joined_by_windows(base, part),
    }
}

/// The path of a part below a base.
pub fn join_on(system: System, base: &str, part: &str) -> (out: String)
    ensures
        out@ == joined_on(system.family(), base@, part@),
{
    match system.platform() {
        Platform::Unix => join_path(base, part),
        Platform::Windows => join_natively(system, base, part),
    }
}

/// Two paths go the same way.
pub open spec fn same_way(platform: Platform, left: Seq<char>, right: Seq<char>) -> bool {
    match platform {
        Platform::Unix => route(left) == route(right),
        Platform::Windows => same_on_windows(left, right),
    }
}

/// Whether two paths go the same way.
pub fn same_path_on(system: System, left: &str, right: &str) -> (out: bool)
    ensures
        out == same_way(system.family(), left@, right@),
{
    match system.platform() {
        Platform::Unix => same_path(left, right),
        Platform::Windows => same_natively(system, left, right),
    }
}

/// The last name of a path, unless it leads back or nowhere.
pub open spec fn last_name_on(platform: Platform, path: Seq<char>) -> Option<Seq<char>> {
    match platform {
        Platform::Unix => last_name(path),
        Platform::Windows => last_name_on_windows(path),
    }
}

/// The last name of a path, unless it leads back or nowhere.
pub fn file_name_on(system: System, path: &str) -> (out: Option<String>)
    ensures
        opt_text(out) == last_name_on(system.family(), path@),
{
    match system.platform() {
        Platform::Unix => file_name(path),
        Platform::Windows => file_name_natively(system, path),
    }
}

/// The path of the directory that a path leads to something in.
pub open spec fn parent_path_on(platform: Platform, path: Seq<char>) -> Option<Seq<char>> {
    match platform {
        Platform::Unix => parent_path(path),
        Platform::Windows => parent_on_windows(path),
    }
}

/// The path of the directory that a path leads to something in.
pub fn parent_on(system: System, path: &str) -> (out: Option<String>)
    ensures
        opt_text(out) == parent_path_on(system.family(), path@),
{
    match system.platform() {
        Platform::Unix => parent(path),
        Platform::Windows => parent_natively(system, path),
    }
}

} // verus!
