//! The text of a file and the lines of a document.
//!
//! A file holds the lines joined by line feeds, with none after the last
//! line. Reading takes a line feed, or a carriage return and a line feed, as
//! the end of a line, and takes a line feed at the very end of the text as
//! the end of the last line, not as the start of an empty one.

use vstd::prelude::*;

verus! {

/// `line` without the carriage return at its end, if it has one.
pub open spec fn strip_cr(line: Seq<char>) -> Seq<char> {
    if line.len() > 0 && line.last() == '\r' {
        line.drop_last()
    } else {
        line
    }
}

/// Reading `text` from left to right: the lines that a line feed has
/// ended so far, and the characters read since the last line feed.
pub open spec fn scan_lines(text: Seq<char>) -> (Seq<Seq<char>>, Seq<char>)
    decreases text.len(),
{
    if text.len() == 0 {
        (Seq::empty(), Seq::empty())
    } else {
        let (done, current) = scan_lines(text.drop_last());
        if text.last() == '\n' {
            (done.push(strip_cr(current)), Seq::empty())
        } else {
            (done, current.push(text.last()))
        }
    }
}

/// The lines of `text`.
pub open spec fn split_lines(text: Seq<char>) -> Seq<Seq<char>> {
    let (done, current) = scan_lines(text);
    if current.len() == 0 {
        done
    } else {
        done.push(current)
    }
}

/// The lines joined by line feeds, with no line feed after the last one.
pub open spec fn join_lines(lines: Seq<Seq<char>>) -> Seq<char>
    decreases lines.len(),
{
    if lines.len() == 0 {
        Seq::empty()
    } else if lines.len() == 1 {
        lines[0]
    } else {
        join_lines(lines.drop_last()) + seq!['\n'] + lines.last()
    }
}

/// The document comes back from its file as it went in: no line holds a
/// line feed, none but the last ends in a carriage return, and the last
/// line, if there is one, is not empty.
pub open spec fn survives_saving(lines: Seq<Seq<char>>) -> bool {
    &&& forall|i: int| 0 <= i < lines.len() ==> !(#[trigger] lines[i]).contains('\n')
    &&& forall|i: int| 0 <= i < lines.len() - 1 ==> strip_cr(#[trigger] lines[i]) == lines[i]
    &&& lines.len() > 0 ==> lines.last().len() > 0
}

/// Reading on through a stretch without line feeds only makes the line in
/// progress longer.
pub proof fn lemma_scan_lines_append(text: Seq<char>, more: Seq<char>)
    requires
        !more.contains('\n'),
    ensures
        scan_lines(text + more) == (scan_lines(text).0, scan_lines(text).1 + more),
    decreases more.len(),
{
    if more.len() == 0 {
        assert(text + more =~= text);
        assert(scan_lines(text).1 + more =~= scan_lines(text).1);
    } else {
        let head = more.drop_last();
        assert(more[more.len() - 1] == more.last());
        assert forall|c: char| head.contains(c) implies more.contains(c) by {
            let i = choose|i: int| 0 <= i < head.len() && head[i] == c;
            assert(more[i] == c);
        }
        lemma_scan_lines_append(text, head);
        assert((text + more).drop_last() =~= text + head);
        assert((scan_lines(text).1 + head).push(more.last()) =~= scan_lines(text).1 + more);
    }
}

/// Each of `lines` without the carriage return at its end.
pub open spec fn strip_each(lines: Seq<Seq<char>>) -> Seq<Seq<char>> {
    Seq::new(lines.len(), |i: int| strip_cr(lines[i]))
}

/// What reading has seen after the joined text of lines without line
/// feeds: all lines but the last are done, each less the carriage return
/// at its end, and the last is in progress.
proof fn lemma_scan_joined(lines: Seq<Seq<char>>)
    requires
        lines.len() > 0,
        forall|i: int| 0 <= i < lines.len() ==> !(#[trigger] lines[i]).contains('\n'),
    ensures
        scan_lines(join_lines(lines)) == (strip_each(lines.drop_last()), lines.last()),
    decreases lines.len(),
{
    let empty = Seq::<char>::empty();
    if lines.len() == 1 {
        lemma_scan_lines_append(empty, lines[0]);
        assert(empty + lines[0] =~= lines[0]);
        assert(strip_each(lines.drop_last()) =~= Seq::<Seq<char>>::empty());
    } else {
        let front = lines.drop_last();
        assert forall|i: int| 0 <= i < front.len() implies !(#[trigger] front[i]).contains(
            '\n',
        ) by {
            assert(front[i] == lines[i]);
        }
        lemma_scan_joined(front);
        let ended = join_lines(front) + seq!['\n'];
        assert(ended.drop_last() =~= join_lines(front));
        assert(strip_each(front.drop_last()).push(strip_cr(front.last())) =~= strip_each(front));
        assert(scan_lines(ended) == (strip_each(front), empty));
        lemma_scan_lines_append(ended, lines.last());
        assert(empty + lines.last() =~= lines.last());
        assert(join_lines(lines) =~= ended + lines.last());
    }
}

/// No line that reading hands out holds a line feed.
proof fn lemma_scan_lines_shape(text: Seq<char>)
    ensures
        forall|i: int|
            0 <= i < scan_lines(text).0.len() ==> !(#[trigger] scan_lines(text).0[i]).contains(
                '\n',
            ),
        !scan_lines(text).1.contains('\n'),
    decreases text.len(),
{
    if text.len() > 0 {
        lemma_scan_lines_shape(text.drop_last());
        let (done, current) = scan_lines(text.drop_last());
        if text.last() == '\n' {
            let line = strip_cr(current);
            if line.contains('\n') {
                let i = choose|i: int| 0 <= i < line.len() && line[i] == '\n';
                assert(current[i] == '\n');
            }
            assert forall|i: int| 0 <= i < scan_lines(text).0.len() implies !(
            #[trigger] scan_lines(text).0[i]).contains('\n') by {
                if i < done.len() {
                    assert(scan_lines(text).0[i] == done[i]);
                }
            }
        } else {
            let longer = current.push(text.last());
            if longer.contains('\n') {
                let i = choose|i: int| 0 <= i < longer.len() && longer[i] == '\n';
                if i < current.len() {
                    assert(current[i] == '\n');
                }
            }
        }
    }
}

/// A document is read back from its saved text line for line if it
/// survives saving, and only then.
pub proof fn lemma_save_then_load(lines: Seq<Seq<char>>)
    ensures
        survives_saving(lines) <==> split_lines(join_lines(lines)) == lines,
{
    let back = split_lines(join_lines(lines));
    if lines.len() == 0 {
        assert(back =~= lines);
    } else if survives_saving(lines) {
        lemma_scan_joined(lines);
        assert(strip_each(lines.drop_last()) =~= lines.drop_last());
        assert(lines.drop_last().push(lines.last()) =~= lines);
    } else if back == lines {
        lemma_scan_lines_shape(join_lines(lines));
        let (done, current) = scan_lines(join_lines(lines));
        assert forall|i: int| 0 <= i < lines.len() implies !(#[trigger] lines[i]).contains(
            '\n',
        ) by {
            if i < done.len() {
                assert(back[i] == done[i]);
            }
        }
        lemma_scan_joined(lines);
        assert forall|i: int| 0 <= i < lines.len() - 1 implies strip_cr(#[trigger] lines[i])
            == lines[i] by {
            assert(back[i] == strip_each(lines.drop_last())[i]);
        }
    }
}

} // verus!
