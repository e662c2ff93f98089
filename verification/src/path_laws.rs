//! What holds of every path that a user changes to.
use vstd::prelude::*;

use crate::paths::{
    absolute, behind_segment, cleaned_path, joined, last_name, lemma_segment_len, names,
    parent_path, path_through, route, same_way, segment_len, tidied, up_to_slash, without_end,
};
use crate::platform::Platform;
use crate::support::workspace_path;
use crate::text::lines::{join, law_joining_adds_up, lemma_join_front};

verus! {

/// A name that a path goes through: not empty, and without a slash.
pub open spec fn proper_name(name: Seq<char>) -> bool {
    name.len() > 0 && !name.contains('/')
}

/// Every name of the list is proper, and none is `.`.
pub open spec fn proper_names(list: Seq<Seq<char>>) -> bool {
    forall|i: int| 0 <= i < list.len() ==> proper_name(#[trigger] list[i])
}

/// The list does not hold the name.
pub open spec fn free_of(list: Seq<Seq<char>>, name: Seq<char>) -> bool {
    forall|i: int| 0 <= i < list.len() ==> #[trigger] list[i] != name
}

proof fn lemma_names_proper(path: Seq<char>, front: bool)
    ensures
        proper_names(names(path, front)),
    decreases path.len(),
{
    if path.len() > 0 {
        lemma_segment_len(path);
        let name = path.take(segment_len(path) as int);
        lemma_names_proper(behind_segment(path), false);
        assert(!name.contains('/')) by {
            if name.contains('/') {
                let i = choose|i: int| 0 <= i < name.len() && name[i] == '/';
                assert(path[i] == '/');
            }
        }
    }
}

proof fn lemma_tidied(rooted: bool, list: Seq<Seq<char>>)
    requires
        proper_names(list),
    ensures
        proper_names(tidied(rooted, list)),
        free_of(tidied(rooted, list), "."@),
        rooted ==> free_of(tidied(rooted, list), ".."@),
    decreases list.len(),
{
    if list.len() > 0 {
        let front = list.drop_last();
        assert forall|i: int| 0 <= i < front.len() implies proper_name(#[trigger] front[i]) by {
            assert(proper_name(list[i]));
        }
        lemma_tidied(rooted, front);
        assert(proper_name(list[list.len() - 1]));
    }
}

/// What was tidied once is tidy: the names that lead back stand in front.
pub open spec fn tidy(rooted: bool, list: Seq<Seq<char>>) -> bool {
    &&& free_of(list, "."@)
    &&& forall|i: int|
        0 <= i < list.len() && #[trigger] list[i] == ".."@ ==> !rooted && (i > 0 ==> list[i - 1]
            == ".."@)
}

proof fn lemma_tidied_is_tidy(rooted: bool, list: Seq<Seq<char>>)
    ensures
        tidy(rooted, tidied(rooted, list)),
    decreases list.len(),
{
    if list.len() > 0 {
        lemma_tidied_is_tidy(rooted, list.drop_last());
        let kept = tidied(rooted, list.drop_last());
        let all = tidied(rooted, list);
        assert forall|i: int| 0 <= i < all.len() && #[trigger] all[i] == ".."@ implies !rooted && (i
            > 0 ==> all[i - 1] == ".."@) by {
            if i < kept.len() {
                assert(kept[i] == ".."@);
            }
        }
    }
}

proof fn lemma_tidy_stays(rooted: bool, list: Seq<Seq<char>>)
    requires
        tidy(rooted, list),
    ensures
        tidied(rooted, list) == list,
    decreases list.len(),
{
    if list.len() > 0 {
        let front = list.drop_last();
        assert(tidy(rooted, front)) by {
            assert forall|i: int| 0 <= i < front.len() && #[trigger] front[i]
                == ".."@ implies !rooted && (i > 0 ==> front[i - 1] == ".."@) by {
                assert(list[i] == ".."@);
            }
            assert forall|i: int| 0 <= i < front.len() implies #[trigger] front[i] != "."@ by {
                assert(list[i] != "."@);
            }
        }
        lemma_tidy_stays(rooted, front);
        assert(list[list.len() - 1] != "."@);
        assert(list.last() == list[list.len() - 1]);
        if list.last() == ".."@ && front.len() > 0 {
            assert(front.last() == list[list.len() - 2]);
        }
        assert(front.push(list.last()) =~= list);
    } else {
        assert(list =~= seq![]);
    }
}

/// A name and a slash are the first segment of a path.
proof fn lemma_first_segment(name: Seq<char>, rest: Seq<char>)
    requires
        !name.contains('/'),
    ensures
        segment_len(name + "/"@ + rest) == name.len(),
        segment_len(name) == name.len(),
    decreases name.len(),
{
    reveal_strlit("/");
    let path = name + "/"@ + rest;
    if name.len() > 0 {
        let less = name.drop_first();
        assert(!less.contains('/')) by {
            if less.contains('/') {
                let i = choose|i: int| 0 <= i < less.len() && less[i] == '/';
                assert(name[i + 1] == '/');
            }
        }
        lemma_first_segment(less, rest);
        assert(path.drop_first() =~= less + "/"@ + rest);
        assert(name[0] != '/') by {
            if name[0] == '/' {
                assert(name.contains('/'));
            }
        }
        assert(path.first() == name[0]);
    } else {
        assert(path.first() == '/');
    }
}

/// A path that was put together goes through the names that it was put together
/// from.
proof fn lemma_names_of_join(list: Seq<Seq<char>>, front: bool)
    requires
        proper_names(list),
        free_of(list, "."@),
    ensures
        names(join(list, "/"@), front) == list,
    decreases list.len(),
{
    reveal_strlit("/");
    if list.len() == 0 {
        assert(names(join(list, "/"@), front) =~= list);
    } else {
        let name = list[0];
        assert(proper_name(name));
        assert(name != "."@);
        if list.len() == 1 {
            lemma_first_segment(name, seq![]);
            assert(name.take(name.len() as int) =~= name);
            assert(names(name, front) =~= seq![name] + names(seq![], false));
            assert(names(seq![], false) =~= Seq::<Seq<char>>::empty());
            assert(names(name, front) =~= list);
        } else {
            let rest = list.drop_first();
            assert(list =~= seq![name] + rest);
            lemma_join_front(name, rest, "/"@);
            let tail = join(rest, "/"@);
            let path = name + "/"@ + tail;
            assert(proper_names(rest)) by {
                assert forall|i: int| 0 <= i < rest.len() implies proper_name(
                    #[trigger] rest[i],
                ) by {
                    assert(proper_name(list[i + 1]));
                }
            }
            assert(free_of(rest, "."@)) by {
                assert forall|i: int| 0 <= i < rest.len() implies #[trigger] rest[i] != "."@ by {
                    assert(list[i + 1] != "."@);
                }
            }
            lemma_first_segment(name, tail);
            lemma_names_of_join(rest, false);
            assert(path.take(name.len() as int) =~= name);
            assert(behind_segment(path) =~= tail);
            assert(names(path, front) =~= seq![name] + rest);
        }
    }
}

proof fn lemma_route_of_path(rooted: bool, list: Seq<Seq<char>>)
    requires
        proper_names(list),
        free_of(list, "."@),
        rooted || list.len() > 0,
    ensures
        route(path_through(rooted, list)) == (rooted, list),
{
    reveal_strlit("/");
    let text = join(list, "/"@);
    if rooted {
        let path = "/"@ + text;
        assert(path.skip(1) =~= text);
        lemma_names_of_join(list, false);
    } else {
        lemma_names_of_join(list, true);
        assert(proper_name(list[0]));
        assert(text.len() > 0 && text[0] == list[0][0]) by {
            if list.len() == 1 {
            } else {
                assert(list =~= seq![list[0]] + list.drop_first());
                lemma_join_front(list[0], list.drop_first(), "/"@);
            }
        }
        assert(list[0].contains(list[0][0]));
        assert(!absolute(text));
    }
}

/// Cleaning a path that was cleaned changes nothing.
pub proof fn law_cleaned_paths_are_clean(path: Seq<char>)
    ensures
        cleaned_path(cleaned_path(path)) == cleaned_path(path),
        absolute(cleaned_path(path)) == absolute(path),
{
    reveal_strlit("/");
    reveal_strlit(".");
    let (rooted, list) = route(path);
    if rooted {
        lemma_names_proper(path.skip(1), false);
    } else {
        lemma_names_proper(path, true);
    }
    let kept = tidied(rooted, list);
    lemma_tidied(rooted, list);
    lemma_tidied_is_tidy(rooted, list);
    lemma_tidy_stays(rooted, kept);
    if rooted || kept.len() > 0 {
        lemma_route_of_path(rooted, kept);
    } else {
        lemma_names_of_dot();
    }
}

/// The path `.` goes through its one name, and cleaned it is itself.
proof fn lemma_names_of_dot()
    ensures
        route("."@) == (false, seq!["."@]),
        tidied(false, seq!["."@]) == Seq::<Seq<char>>::empty(),
{
    reveal_strlit(".");
    lemma_segment_len("."@);
    let path = "."@;
    assert(path.drop_first() =~= seq![]);
    assert(segment_len(path.drop_first()) == 0);
    assert(path.take(1) =~= path);
    assert(behind_segment(path) =~= seq![]);
    assert(names(seq![], false) =~= Seq::<Seq<char>>::empty());
    assert(names(path, true) =~= seq!["."@]);
    assert(seq!["."@].drop_last() =~= Seq::<Seq<char>>::empty());
    assert(tidied(false, seq!["."@].drop_last()) =~= Seq::<Seq<char>>::empty());
}

/// On Unix, a user who is in an absolute directory stays in absolute directories,
/// without any way back in them, and can change to the one that they are in by its
/// path.
pub proof fn law_workspaces_are_absolute_and_clean(base: Seq<char>, raw: Seq<char>, other: Seq<char>)
    requires
        absolute(base),
    ensures
        absolute(workspace_path(base, raw)),
        free_of(route(workspace_path(base, raw)).1, "."@),
        free_of(route(workspace_path(base, raw)).1, ".."@),
        workspace_path(other, workspace_path(base, raw)) == workspace_path(base, raw),
{
    reveal_strlit("/");
    let path = joined(base, raw);
    assert(absolute(path));
    law_cleaned_paths_are_clean(path);
    let (rooted, list) = route(path);
    lemma_names_proper(path.skip(1), false);
    lemma_tidied(rooted, list);
    lemma_route_of_path(rooted, tidied(rooted, list));
}

/// The names lead on: none of them is `.` or `..`.
pub open spec fn leads_on(list: Seq<Seq<char>>) -> bool {
    proper_names(list) && free_of(list, "."@) && free_of(list, ".."@)
}

/// The directory that the given names lead to from the root.
pub open spec fn from_root(list: Seq<Seq<char>>) -> Seq<char> {
    "/"@ + join(list, "/"@)
}

/// A path of proper names begins and ends with characters of its names.
proof fn lemma_join_ends(list: Seq<Seq<char>>)
    requires
        proper_names(list),
        list.len() > 0,
    ensures
        join(list, "/"@).len() > 0,
        join(list, "/"@).first() == list[0][0],
        join(list, "/"@).last() == list.last().last(),
        join(list, "/"@).first() != '/',
        join(list, "/"@).last() != '/',
    decreases list.len(),
{
    let last = list.last();
    assert(proper_name(list[list.len() - 1]));
    assert(proper_name(list[0]));
    assert(list[0].contains(list[0][0]));
    assert(last.contains(last[last.len() - 1]));
    if list.len() > 1 {
        let front = list.drop_last();
        assert forall|i: int| 0 <= i < front.len() implies proper_name(#[trigger] front[i]) by {
            assert(proper_name(list[i]));
        }
        lemma_join_ends(front);
        assert(front[0] == list[0]);
    }
}

proof fn lemma_joined_names(list: Seq<Seq<char>>, more: Seq<Seq<char>>)
    requires
        proper_names(list),
        proper_names(more),
        more.len() > 0,
    ensures
        joined(from_root(list), join(more, "/"@)) == from_root(list + more),
{
    reveal_strlit("/");
    lemma_join_ends(more);
    law_joining_adds_up(list, more, "/"@);
    let part = join(more, "/"@);
    assert(!absolute(part));
    let base = from_root(list);
    if list.len() == 0 {
        assert(base =~= "/"@);
        assert(list + more =~= more);
    } else {
        lemma_join_ends(list);
        assert(base.last() == join(list, "/"@).last());
        assert(base + "/"@ + part =~= "/"@ + (join(list, "/"@) + "/"@ + part));
    }
}

/// A way that leads on is gone on from the directory that the user is in, name by name; an
/// absolute way leads to its own directory, wherever the user is; and `..` leads back by one
/// name, or nowhere from the root.
pub proof fn law_a_way_goes_on_from_the_directory(
    list: Seq<Seq<char>>,
    more: Seq<Seq<char>>,
    other: Seq<char>,
)
    requires
        leads_on(list),
        leads_on(more),
    ensures
        more.len() > 0 ==> workspace_path(from_root(list), join(more, "/"@)) == from_root(
            list + more,
        ),
        workspace_path(other, from_root(list)) == from_root(list),
        list.len() > 0 ==> workspace_path(from_root(list), ".."@) == from_root(list.drop_last()),
        workspace_path("/"@, ".."@) == "/"@,
{
    reveal_strlit("/");
    reveal_strlit(".");
    reveal_strlit("..");
    let all = list + more;
    assert forall|i: int| 0 <= i < all.len() implies proper_name(#[trigger] all[i]) && all[i]
        != "."@ && all[i] != ".."@ by {
        if i < list.len() {
            assert(proper_name(list[i]) && list[i] != "."@ && list[i] != ".."@);
        } else {
            let j = i - list.len();
            assert(proper_name(more[j]) && more[j] != "."@ && more[j] != ".."@);
        }
    }
    assert(tidy(true, all));
    if more.len() > 0 {
        lemma_joined_names(list, more);
        lemma_route_of_path(true, all);
        lemma_tidy_stays(true, all);
    }
    assert(tidy(true, list));
    lemma_route_of_path(true, list);
    lemma_tidy_stays(true, list);
    assert(absolute(from_root(list)));
    let back = seq![".."@];
    assert(proper_name(".."@));
    assert("."@.len() != ".."@.len());
    lemma_back(list);
    lemma_back(Seq::<Seq<char>>::empty());
    let none = Seq::<Seq<char>>::empty();
    assert(from_root(none) =~= "/"@);
}

/// One name back.
proof fn lemma_back(list: Seq<Seq<char>>)
    requires
        leads_on(list),
    ensures
        list.len() > 0 ==> workspace_path(from_root(list), ".."@) == from_root(list.drop_last()),
        list.len() == 0 ==> workspace_path(from_root(list), ".."@) == from_root(list),
{
    reveal_strlit("/");
    reveal_strlit(".");
    reveal_strlit("..");
    let back = seq![".."@];
    assert(proper_name(".."@));
    assert("."@.len() != ".."@.len());
    assert(proper_names(back));
    assert(join(back, "/"@) == ".."@);
    lemma_joined_names(list, back);
    let all = list + back;
    assert forall|i: int| 0 <= i < all.len() implies proper_name(#[trigger] all[i]) && all[i]
        != "."@ by {
        if i < list.len() {
            assert(proper_name(list[i]) && list[i] != "."@);
        }
    }
    lemma_route_of_path(true, all);
    assert(tidy(true, list));
    lemma_tidy_stays(true, list);
    assert(all.drop_last() =~= list);
    assert(all.last() == ".."@);
    if list.len() > 0 {
        assert(list[list.len() - 1] != ".."@);
    }
}

/// The last name of a path is the one that it ends with, whole.
pub proof fn law_the_last_name_is_the_end_of_the_path(list: Seq<Seq<char>>)
    requires
        leads_on(list),
        list.len() > 0,
    ensures
        last_name(from_root(list)) == Some(list.last()),
        last_name(join(list, "/"@)) == Some(list.last()),
{
    reveal_strlit("/");
    lemma_route_of_path(true, list);
    lemma_route_of_path(false, list);
    assert(list[list.len() - 1] != "."@ && list[list.len() - 1] != ".."@);
}

proof fn lemma_up_to_slash(front: Seq<char>, name: Seq<char>)
    requires
        !name.contains('/'),
    ensures
        up_to_slash(front + "/"@ + name) == front + "/"@,
    decreases name.len(),
{
    reveal_strlit("/");
    let path = front + "/"@ + name;
    if name.len() == 0 {
        assert(path =~= front + "/"@);
    } else {
        let less = name.drop_last();
        assert(!less.contains('/')) by {
            if less.contains('/') {
                let i = choose|i: int| 0 <= i < less.len() && less[i] == '/';
                assert(name[i] == '/');
            }
        }
        assert(path.drop_last() =~= front + "/"@ + less);
        assert(path.last() == name[name.len() - 1]);
        assert(name.contains(name[name.len() - 1]));
        lemma_up_to_slash(front, less);
    }
}

/// A path that ends with a name does not end in a way that leads nowhere.
proof fn lemma_no_end(list: Seq<Seq<char>>)
    requires
        leads_on(list),
        list.len() > 0,
    ensures
        without_end(from_root(list)) == from_root(list),
{
    reveal_strlit("/");
    reveal_strlit(".");
    lemma_join_ends(list);
    let path = from_root(list);
    let last = list.last();
    let text = join(list, "/"@);
    assert(path.last() == text.last());
    assert(proper_name(list[list.len() - 1]) && list[list.len() - 1] != "."@);
    if path.last() == '.' {
        if last.len() == 1 {
            assert(last =~= "."@);
        } else {
            let n = last.len() as int;
            assert(last.contains(last[n - 2]));
            if list.len() == 1 {
                assert(path[path.len() - 2] == last[n - 2]);
            } else {
                assert(path[path.len() - 2] == last[n - 2]);
            }
        }
    }
}

/// What a path leads to lies in the directory that the path without its last name leads to.
pub proof fn law_a_path_lies_in_what_is_before_its_last_name(
    list: Seq<Seq<char>>,
    name: Seq<char>,
)
    requires
        leads_on(list.push(name)),
    ensures
        parent_path(from_root(list.push(name))) == Some(from_root(list)),
{
    reveal_strlit("/");
    let all = list.push(name);
    assert(all[all.len() - 1] == name);
    assert(proper_name(name));
    assert(leads_on(list)) by {
        assert forall|i: int| 0 <= i < list.len() implies proper_name(#[trigger] list[i])
            && list[i] != "."@ && list[i] != ".."@ by {
            assert(proper_name(all[i]) && all[i] != "."@ && all[i] != ".."@);
        }
    }
    lemma_no_end(all);
    let path = from_root(all);
    lemma_join_ends(all);
    assert(path.len() > 1);
    if list.len() == 0 {
        let none = Seq::<char>::empty();
        assert(all =~= seq![name]);
        assert(path =~= none + "/"@ + name);
        lemma_up_to_slash(none, name);
        assert(none + "/"@ =~= "/"@);
        assert(from_root(list) =~= "/"@);
        assert(without_end("/"@) == "/"@);
    } else {
        let front = from_root(list);
        assert(all.drop_last() =~= list);
        assert(path =~= front + "/"@ + name);
        lemma_up_to_slash(front, name);
        lemma_no_end(list);
        let cut = front + "/"@;
        assert(cut.last() == '/');
        assert(cut.drop_last() =~= front);
        lemma_join_ends(list);
        assert(cut.len() > 1);
        assert(without_end(cut) == without_end(front));
    }
}

/// Two absolute ways that lead on go the same way just if they go through the same names.
pub proof fn law_different_names_lead_different_ways(
    left: Seq<Seq<char>>,
    right: Seq<Seq<char>>,
)
    requires
        leads_on(left),
        leads_on(right),
    ensures
        same_way(Platform::Unix, from_root(left), from_root(right)) <==> left == right,
        !same_way(Platform::Unix, from_root(left), "."@),
{
    reveal_strlit("/");
    reveal_strlit(".");
    lemma_route_of_path(true, left);
    lemma_route_of_path(true, right);
}

} // verus!
