//! What holds of every text that is cut into chunks.
use vstd::prelude::*;

use crate::support::{chunking, chunks, slices, Chunking};
use crate::text::chars::white_space;
use crate::text::lines::{join, lemma_join_front, lemma_lines_unbroken, lines, without_return};
use crate::text::search::{ends_with, find, lemma_find_char, occurs_at};
use crate::text::trim::{tight, Trimmed};

verus! {

/// The pieces of a list, one right behind the other.
pub open spec fn together(list: Seq<Seq<char>>) -> Seq<char>
    decreases list.len(),
{
    if list.len() == 0 {
        seq![]
    } else {
        together(list.drop_last()) + list.last()
    }
}

/// The text without its line feeds.
pub open spec fn unbroken(text: Seq<char>) -> Seq<char> {
    text.filter(|c: char| c != '\n')
}

/// Every text of the list has at most the given number of characters.
pub open spec fn each_within(list: Seq<Seq<char>>, max: nat) -> bool {
    forall|i: int| 0 <= i < list.len() ==> (#[trigger] list[i]).len() <= max
}

proof fn lemma_slices(text: Seq<char>, max: nat)
    requires
        max > 0,
    ensures
        each_within(slices(text, max), max),
        together(slices(text, max)) == text,
    decreases text.len(),
{
    if text.len() > max {
        let rest = text.skip(max as int);
        lemma_slices(rest, max);
        let head = seq![text.take(max as int)];
        lemma_together_concat(head, slices(rest, max));
        lemma_together_one(text.take(max as int));
        assert(together(slices(text, max)) =~= text);
    } else if text.len() > 0 {
        lemma_together_one(text);
    }
}

proof fn lemma_together_one(piece: Seq<char>)
    ensures
        together(seq![piece]) == piece,
{
    reveal_with_fuel(together, 2);
    assert(together(seq![piece]) =~= piece);
}

proof fn lemma_together_concat(front: Seq<Seq<char>>, back: Seq<Seq<char>>)
    ensures
        together(front + back) == together(front) + together(back),
    decreases back.len(),
{
    if back.len() == 0 {
        assert(front + back =~= front);
    } else {
        assert((front + back).drop_last() =~= front + back.drop_last());
        lemma_together_concat(front, back.drop_last());
        assert(together(front + back) =~= together(front) + together(back));
    }
}

proof fn lemma_chunking_within(list: Seq<Seq<char>>, max: nat)
    requires
        max > 0,
    ensures
        each_within(chunking(list, max).done, max),
        chunking(list, max).current.len() <= max,
    decreases list.len(),
{
    if list.len() > 0 {
        let before = chunking(list.drop_last(), max);
        lemma_chunking_within(list.drop_last(), max);
        lemma_slices(list.last(), max);
        reveal_strlit("\n");
        assert(each_within(before.closed(), max));
    }
}

/// No chunk is longer than the limit, and there is always at least one chunk.
pub proof fn law_chunks_keep_within_the_limit(text: Seq<char>, max: nat)
    requires
        max > 0,
    ensures
        each_within(chunks(text, max), max),
        chunks(text, max).len() >= 1,
{
    lemma_chunking_within(lines(text), max);
}

proof fn lemma_closed_together(state: Chunking)
    ensures
        together(state.closed()) == together(state.done) + state.current,
{
    if state.current.len() > 0 {
        assert(state.closed().drop_last() =~= state.done);
    } else {
        assert(together(state.done) + state.current =~= together(state.done));
    }
}

proof fn lemma_unbroken_concat(front: Seq<char>, back: Seq<char>)
    ensures
        unbroken(front + back) == unbroken(front) + unbroken(back),
{
    Seq::filter_distributes_over_add(front, back, |c: char| c != '\n');
}

proof fn lemma_unbroken_line(line: Seq<char>)
    requires
        forall|j: int| 0 <= j < line.len() ==> #[trigger] line[j] != '\n',
    ensures
        unbroken(line) == line,
    decreases line.len(),
{
    reveal(Seq::filter);
    if line.len() > 0 {
        assert forall|j: int| 0 <= j < line.drop_last().len() implies #[trigger] line.drop_last()[j]
            != '\n' by {
            assert(line[j] == line.drop_last()[j]);
        }
        lemma_unbroken_line(line.drop_last());
        assert(line[line.len() - 1] != '\n');
        assert(unbroken(line) =~= line);
    } else {
        assert(unbroken(line) =~= line);
    }
}

proof fn lemma_chunking_loses_nothing(list: Seq<Seq<char>>, max: nat)
    requires
        max > 0,
        forall|i: int, j: int|
            0 <= i < list.len() && 0 <= j < list[i].len() ==> #[trigger] list[i][j] != '\n',
    ensures
        unbroken(together(chunking(list, max).closed())) == together(list),
    decreases list.len(),
{
    reveal(Seq::filter);
    let after = chunking(list, max);
    if list.len() == 0 {
        assert(together(after.closed()) =~= Seq::<char>::empty());
        assert(unbroken(Seq::<char>::empty()) =~= Seq::<char>::empty());
    } else {
        let rest = list.drop_last();
        let line = list.last();
        let before = chunking(rest, max);
        assert forall|i: int, j: int|
            0 <= i < rest.len() && 0 <= j < rest[i].len() implies #[trigger] rest[i][j] != '\n' by {
            assert(list[i][j] == rest[i][j]);
        }
        lemma_chunking_loses_nothing(rest, max);
        assert forall|j: int| 0 <= j < line.len() implies #[trigger] line[j] != '\n' by {
            assert(list[list.len() - 1][j] == line[j]);
        }
        lemma_unbroken_line(line);
        lemma_closed_together(before);
        lemma_closed_together(after);
        let kept = together(before.done) + before.current;
        if line.len() > max {
            lemma_slices(line, max);
            lemma_together_concat(before.closed(), slices(line, max));
            assert(together(after.closed()) =~= kept + line);
        } else if before.current.len() == 0 {
            assert(together(after.closed()) =~= kept + line);
        } else if before.current.len() + 1 + line.len() <= max {
            reveal_strlit("\n");
            assert(together(after.closed()) =~= kept + "\n"@ + line);
            lemma_unbroken_concat(kept + "\n"@, line);
            lemma_unbroken_concat(kept, "\n"@);
            assert(unbroken("\n"@) =~= Seq::<char>::empty()) by {
                reveal_with_fuel(Seq::filter, 2);
            }
            assert(unbroken(kept + "\n"@) =~= unbroken(kept));
        } else {
            assert(together(after.closed()) =~= kept + line);
        }
        lemma_unbroken_concat(kept, line);
    }
}

/// Chunking loses nothing but line ends: the chunks run together hold the
/// characters of all the lines, in their order.
pub proof fn law_chunks_lose_nothing(text: Seq<char>, max: nat)
    requires
        max > 0,
    ensures
        unbroken(together(chunks(text, max))) == together(lines(text)),
{
    lemma_lines_unbroken(text);
    lemma_chunking_loses_nothing(lines(text), max);
    let all = chunking(lines(text), max).closed();
    if all.len() == 0 {
        let one = seq![Seq::<char>::empty()];
        assert(one.drop_last() =~= all);
        assert(together(one) =~= together(all));
    }
}

/// The lines of a text without carriage returns that does not end in a line feed
/// join to the text.
proof fn lemma_lines_join(text: Seq<char>)
    requires
        !text.contains('\r'),
        text.len() > 0,
        text.last() != '\n',
    ensures
        join(lines(text), "\n"@) == text,
        lines(text).len() > 0,
    decreases text.len(),
{
    reveal_strlit("\n");
    lemma_find_char(text, '\n');
    match find(text, seq!['\n']) {
        Some(at) => {
            let head = text.take(at);
            let rest = text.skip(at + 1);
            assert(at < text.len() - 1);
            assert(!rest.contains('\r')) by {
                if rest.contains('\r') {
                    let i = choose|i: int| 0 <= i < rest.len() && rest[i] == '\r';
                    assert(text[at + 1 + i] == '\r');
                }
            }
            assert(head.len() > 0 ==> head.last() == text[at - 1]);
            lemma_lines_join(rest);
            lemma_join_front(head, lines(rest), "\n"@);
            assert(head + "\n"@ + rest =~= text);
        },
        None => {},
    }
}

/// The lines of a text without carriage returns that does not end in a line feed join to the
/// text: no line is left out, and none is cut.
pub proof fn law_lines_join_to_their_text(text: Seq<char>)
    requires
        !text.contains('\r'),
        text.len() > 0,
        text.last() != '\n',
    ensures
        join(lines(text), "\n"@) == text,
        lines(text).len() > 0,
{
    lemma_lines_join(text);
}

proof fn lemma_join_len(list: Seq<Seq<char>>, k: int)
    requires
        0 <= k <= list.len(),
    ensures
        join(list.take(k), "\n"@).len() <= join(list, "\n"@).len(),
    decreases list.len() - k,
{
    if k < list.len() {
        lemma_join_len(list, k + 1);
        let next = list.take(k + 1);
        assert(next.drop_last() =~= list.take(k));
        if k == 0 {
            assert(list.take(0).len() == 0);
        }
    } else {
        assert(list.take(k) =~= list);
    }
}

proof fn lemma_chunking_joins(list: Seq<Seq<char>>, k: int, max: nat)
    requires
        1 <= k <= list.len(),
        list[0].len() > 0,
        join(list, "\n"@).len() <= max,
    ensures
        chunking(list.take(k), max).done =~= seq![],
        chunking(list.take(k), max).current == join(list.take(k), "\n"@),
        chunking(list.take(k), max).current.len() > 0,
    decreases k,
{
    reveal_strlit("\n");
    let now = list.take(k);
    lemma_join_len(list, k);
    let rest = now.drop_last();
    if k == 1 {
        assert(rest =~= Seq::<Seq<char>>::empty());
        assert(chunking(rest, max).current.len() == 0);
        assert(now.last() == list[0]);
        assert(join(now, "\n"@) == list[0]);
        assert(list[0].len() <= max);
    } else {
        assert(rest =~= list.take(k - 1));
        lemma_chunking_joins(list, k - 1, max);
        let before = chunking(rest, max);
        assert(join(now, "\n"@).len() == before.current.len() + 1 + now.last().len());
    }
}

/// A text that fits into one chunk, has no white space at its ends and no carriage
/// return is one chunk as it is.
pub proof fn law_a_text_that_fits_is_one_chunk(text: Seq<char>, max: nat)
    requires
        0 < text.len() <= max,
        tight(text, Trimmed::WhiteSpace),
        !text.contains('\r'),
    ensures
        chunks(text, max) == seq![text],
{
    assert(!white_space('\n') ==> false);
    assert(text.last() != '\n');
    assert(text.first() != '\n');
    law_lines_join_to_their_text(text);
    let list = lines(text);
    lemma_find_char(text, '\n');
    assert(list[0].len() > 0) by {
        match find(text, seq!['\n']) {
            Some(at) => {
                assert(text.take(at).last() == text[at - 1]);
                assert(list[0] == text.take(at));
            },
            None => {
                assert(list =~= seq![text]);
            },
        }
    }
    lemma_chunking_joins(list, list.len() as int, max);
    assert(list.take(list.len() as int) =~= list);
    assert(chunks(text, max) =~= seq![text]);
}

/// The piece stands somewhere in the text, in one stretch.
pub open spec fn is_piece(text: Seq<char>, piece: Seq<char>) -> bool {
    exists|at: int| #[trigger] occurs_at(text, piece, at)
}

/// A piece of a text is a piece of a text that goes on behind it, and one of a text that
/// ends another is a piece of that.
proof fn lemma_piece_within(front: Seq<char>, text: Seq<char>, back: Seq<char>, piece: Seq<char>)
    requires
        is_piece(text, piece),
    ensures
        is_piece(front + text + back, piece),
{
    let at = choose|at: int| #[trigger] occurs_at(text, piece, at);
    let whole = front + text + back;
    let n = front.len() as int;
    assert(whole.subrange(n + at, n + at + piece.len()) =~= text.subrange(at, at + piece.len()));
    assert(occurs_at(whole, piece, n + at));
}

proof fn lemma_slices_are_pieces(line: Seq<char>, max: nat, i: int)
    requires
        0 <= i < slices(line, max).len(),
    ensures
        is_piece(line, slices(line, max)[i]),
    decreases line.len(),
{
    let none = Seq::<char>::empty();
    if line.len() <= max {
        assert(line.subrange(0, line.len() as int) =~= line);
        assert(occurs_at(line, line, 0));
    } else {
        let head = line.take(max as int);
        let rest = line.skip(max as int);
        if i == 0 {
            assert(line.subrange(0, max as int) =~= head);
            assert(occurs_at(line, head, 0));
        } else {
            lemma_slices_are_pieces(rest, max, i - 1);
            lemma_piece_within(head, rest, none, slices(rest, max)[i - 1]);
            assert(head + rest + none =~= line);
        }
    }
}

/// Every chunk is a piece of the lines so far, and the open one ends them.
proof fn lemma_chunking_pieces(list: Seq<Seq<char>>, max: nat)
    requires
        max > 0,
    ensures
        forall|i: int|
            0 <= i < chunking(list, max).done.len() ==> is_piece(
                join(list, "\n"@),
                #[trigger] chunking(list, max).done[i],
            ),
        ends_with(join(list, "\n"@), chunking(list, max).current),
    decreases list.len(),
{
    reveal_strlit("\n");
    let none = Seq::<char>::empty();
    let all = join(list, "\n"@);
    let after = chunking(list, max);
    if list.len() == 0 {
        assert(all.skip(0) =~= after.current);
    } else {
        let rest = list.drop_last();
        let line = list.last();
        let before = chunking(rest, max);
        let so_far = join(rest, "\n"@);
        lemma_chunking_pieces(rest, max);
        let gap = if rest.len() == 0 {
            none
        } else {
            "\n"@
        };
        if rest.len() == 0 {
            assert(list =~= seq![line]);
            assert(all =~= so_far + gap + line);
        }
        assert(all == so_far + gap + line);
        let open = so_far.skip(so_far.len() - before.current.len());
        assert(so_far.subrange(
            so_far.len() - before.current.len(),
            so_far.len() as int,
        ) =~= before.current);
        assert(occurs_at(so_far, before.current, so_far.len() - before.current.len()));
        assert forall|i: int| 0 <= i < before.closed().len() implies is_piece(
            all,
            #[trigger] before.closed()[i],
        ) by {
            let piece = before.closed()[i];
            assert(is_piece(so_far, piece)) by {
                if i < before.done.len() {
                    assert(piece == before.done[i]);
                }
            }
            lemma_piece_within(none, so_far, gap + line, piece);
            assert(none + so_far + (gap + line) =~= all);
        }
        assert forall|i: int| 0 <= i < before.done.len() implies is_piece(
            all,
            #[trigger] before.done[i],
        ) by {
            assert(before.closed()[i] == before.done[i]);
        }
        assert(all.skip(all.len() - line.len()) =~= line);
        if line.len() > max {
            let cut = slices(line, max);
            assert forall|i: int| 0 <= i < after.done.len() implies is_piece(
                all,
                #[trigger] after.done[i],
            ) by {
                let n = before.closed().len();
                if i < n {
                    assert(after.done[i] == before.closed()[i]);
                } else {
                    lemma_slices_are_pieces(line, max, i - n);
                    lemma_piece_within(so_far + gap, line, none, cut[i - n]);
                    assert(so_far + gap + line + none =~= all);
                    assert(after.done[i] == cut[i - n]);
                }
            }
            assert(all.skip(all.len() as int) =~= none);
        } else if before.current.len() > 0 && before.current.len() + 1 + line.len() <= max {
            assert(rest.len() > 0) by {
                if rest.len() == 0 {
                    assert(before.current.len() == 0);
                }
            }
            let longer = before.current + "\n"@ + line;
            assert(all.skip(all.len() - longer.len()) =~= open + "\n"@ + line);
        }
    }
}

/// Every chunk of a text without carriage returns that does not end in a line feed stands in
/// the text in one stretch, line ends included.
pub proof fn law_chunks_are_pieces_of_the_text(text: Seq<char>, max: nat)
    requires
        max > 0,
        text.len() > 0,
        text.last() != '\n',
        !text.contains('\r'),
    ensures
        forall|i: int|
            0 <= i < chunks(text, max).len() ==> is_piece(text, #[trigger] chunks(text, max)[i]),
{
    law_lines_join_to_their_text(text);
    lemma_chunking_pieces(lines(text), max);
    let state = chunking(lines(text), max);
    let open = state.current;
    assert(text.subrange(text.len() - open.len(), text.len() as int) =~= open);
    assert(occurs_at(text, open, text.len() - open.len()));
    let all = state.closed();
    assert forall|i: int| 0 <= i < chunks(text, max).len() implies is_piece(
        text,
        #[trigger] chunks(text, max)[i],
    ) by {
        if all.len() == 0 {
            assert(text.subrange(0, 0) =~= Seq::<char>::empty());
            assert(occurs_at(text, Seq::<char>::empty(), 0));
        } else if i < state.done.len() {
            assert(all[i] == state.done[i]);
        }
    }
}

/// A text is its first line, up to the first line feed, and the lines behind that.
proof fn lemma_line_end(head: Seq<char>, rest: Seq<char>)
    requires
        !head.contains('\n'),
    ensures
        lines(head + seq!['\n'] + rest) == seq![without_return(head)] + lines(rest),
{
    let text = head + seq!['\n'] + rest;
    let n = head.len() as int;
    lemma_find_char(text, '\n');
    assert(text[n] == '\n');
    let at = find(text, seq!['\n'])->Some_0;
    assert(at == n) by {
        if at < n {
            assert(text[at] == head[at]);
            assert(head.contains(head[at]));
        }
    }
    assert(text.take(n) =~= head);
    assert(text.skip(n + 1) =~= rest);
}

/// A line end is taken off its line and nothing else is, be it a line feed alone or a carriage
/// return and a line feed, whatever follows.
pub proof fn law_line_ends_are_taken_off(line: Seq<char>, rest: Seq<char>)
    requires
        !line.contains('\n'),
    ensures
        lines(line + seq!['\r', '\n'] + rest) == seq![line] + lines(rest),
        line.len() == 0 || line.last() != '\r' ==> lines(line + seq!['\n'] + rest) == seq![line]
            + lines(rest),
{
    let ended = line.push('\r');
    assert(!ended.contains('\n')) by {
        if ended.contains('\n') {
            let i = choose|i: int| 0 <= i < ended.len() && ended[i] == '\n';
            assert(line[i] == '\n');
        }
    }
    lemma_line_end(ended, rest);
    lemma_line_end(line, rest);
    assert(ended.drop_last() =~= line);
    assert(ended + seq!['\n'] + rest =~= line + seq!['\r', '\n'] + rest);
}

/// The text up to its first line feed.
pub open spec fn first_line(text: Seq<char>) -> Seq<char> {
    match find(text, seq!['\n']) {
        Some(at) => text.take(at),
        None => text,
    }
}

/// The first line of the second chunk does not fit behind the first chunk.
pub open spec fn no_room(chunk: Seq<char>, behind: Seq<char>, max: nat) -> bool {
    chunk.len() + 1 + first_line(behind).len() > max
}

proof fn lemma_first_line(text: Seq<char>, line: Seq<char>)
    requires
        text.len() > 0,
    ensures
        first_line(text + "\n"@ + line) == first_line(text),
        !text.contains('\n') ==> first_line(text) == text,
{
    reveal_strlit("\n");
    let more = text + "\n"@ + line;
    let n = text.len() as int;
    lemma_find_char(text, '\n');
    lemma_find_char(more, '\n');
    assert(more[n] == '\n');
    match find(text, seq!['\n']) {
        Some(at) => {
            assert(text.contains(text[at]));
            assert(more[at] == text[at]);
            let other = find(more, seq!['\n'])->Some_0;
            assert(other == at) by {
                if other < at {
                    assert(text[other] == more[other]);
                }
            }
            assert(more.take(at) =~= text.take(at));
        },
        None => {
            let other = find(more, seq!['\n'])->Some_0;
            assert(other == n) by {
                if other < n {
                    assert(text[other] == more[other]);
                }
            }
            assert(more.take(n) =~= text);
        },
    }
}

/// What keeps a chunk open until the next line does not fit.
spec fn filled(state: Chunking, max: nat) -> bool {
    &&& forall|i: int|
        0 <= i < state.done.len() - 1 ==> no_room(
            #[trigger] state.done[i],
            state.done[i + 1],
            max,
        )
    &&& state.done.len() > 0 && state.current.len() > 0 ==> no_room(
        state.done.last(),
        state.current,
        max,
    )
    &&& state.done.len() > 0 && state.current.len() == 0 ==> state.done.last().len() >= max
}

proof fn lemma_filled(list: Seq<Seq<char>>, max: nat)
    requires
        max > 0,
        forall|i: int|
            0 <= i < list.len() ==> (#[trigger] list[i]).len() <= max && !list[i].contains('\n'),
    ensures
        filled(chunking(list, max), max),
    decreases list.len(),
{
    if list.len() > 0 {
        let rest = list.drop_last();
        let line = list.last();
        assert(list[list.len() - 1].len() <= max && !list[list.len() - 1].contains('\n'));
        assert forall|i: int| 0 <= i < rest.len() implies (#[trigger] rest[i]).len() <= max
            && !rest[i].contains('\n') by {
            assert(rest[i] == list[i]);
        }
        lemma_filled(rest, max);
        let before = chunking(rest, max);
        let after = chunking(list, max);
        if line.len() > 0 {
            lemma_first_line(line, line);
        }
        if before.current.len() > 0 {
            lemma_first_line(before.current, line);
        }
        if before.current.len() > 0 && before.current.len() + 1 + line.len() > max {
            assert forall|i: int| 0 <= i < after.done.len() - 1 implies no_room(
                #[trigger] after.done[i],
                after.done[i + 1],
                max,
            ) by {
                if i < before.done.len() - 1 {
                    assert(after.done[i] == before.done[i]);
                    assert(after.done[i + 1] == before.done[i + 1]);
                } else {
                    assert(after.done[i] == before.done.last());
                    assert(after.done[i + 1] == before.current);
                }
            }
        }
    }
}

/// Lines go into one chunk as long as they fit: where no line is longer than a chunk, the
/// first line of each chunk would not have fitted behind the chunk before it.
pub proof fn law_chunks_are_filled(text: Seq<char>, max: nat, i: int)
    requires
        max > 0,
        each_within(lines(text), max),
        0 <= i < chunks(text, max).len() - 1,
    ensures
        no_room(chunks(text, max)[i], chunks(text, max)[i + 1], max),
{
    let list = lines(text);
    lemma_lines_unbroken(text);
    assert forall|k: int| 0 <= k < list.len() implies (#[trigger] list[k]).len() <= max
        && !list[k].contains('\n') by {
        if list[k].contains('\n') {
            let j = choose|j: int| 0 <= j < list[k].len() && list[k][j] == '\n';
            assert(list[k][j] != '\n');
        }
    }
    lemma_filled(list, max);
    let state = chunking(list, max);
    let all = state.closed();
    assert(chunks(text, max) == all);
    if i + 1 < state.done.len() {
        assert(all[i] == state.done[i]);
        assert(all[i + 1] == state.done[i + 1]);
    } else {
        assert(all[i] == state.done.last());
        assert(all[i + 1] == state.current);
    }
}

proof fn lemma_slices_full(line: Seq<char>, max: nat, i: int)
    requires
        max > 0,
        0 <= i < slices(line, max).len(),
    ensures
        i < slices(line, max).len() - 1 ==> slices(line, max)[i].len() == max,
        slices(line, max)[i].len() > 0,
    decreases line.len(),
{
    if line.len() > max {
        let rest = line.skip(max as int);
        let all = seq![line.take(max as int)] + slices(rest, max);
        assert(slices(line, max) == all);
        if i > 0 {
            lemma_slices_full(rest, max, i - 1);
        }
    }
}

/// One long line is cut into chunks of just the limit, but for the last one.
pub proof fn law_a_long_line_is_cut_into_full_chunks(line: Seq<char>, max: nat, i: int)
    requires
        max > 0,
        line.len() > max,
        !line.contains('\n'),
        0 <= i < chunks(line, max).len() - 1,
    ensures
        chunks(line, max)[i].len() == max,
        together(chunks(line, max)) == line,
{
    lemma_find_char(line, '\n');
    if let Some(at) = find(line, seq!['\n']) {
        assert(line.contains(line[at]));
    }
    assert(lines(line) =~= seq![line]);
    let none = Seq::<Seq<char>>::empty();
    assert(seq![line].drop_last() =~= none);
    let start = chunking(none, max);
    assert(start.done =~= none);
    assert(start.current.len() == 0);
    assert(start.closed() =~= none);
    let state = chunking(lines(line), max);
    assert(state == start.with_line(line, max));
    assert(state.done =~= slices(line, max));
    lemma_slices(line, max);
    assert(state.closed() =~= slices(line, max));
    lemma_slices_full(line, max, i);
}

} // verus!
