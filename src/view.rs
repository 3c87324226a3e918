//! What the screen shows, computed from the state: the lines of a preview
//! and the window of them in view, how a diff line is coloured, how long
//! lines are cut, where the text cursor stands and the file list's title.
use crate::git::texts;
use crate::status::{lines, lines_after, strip_cr};
use crate::text::{chars_of, decimal, decimal_string, join, join3, string_of_range};
use vstd::prelude::*;

verus! {

/// How a line of a diff is coloured.
#[derive(Debug, Clone, Copy, PartialEq, Eq, Structural)]
pub enum LineKind {
    Added,
    Removed,
    Hunk,
    Plain,
}

/// The kind of a diff line: by its first character `+` or `-`, or by a
/// leading `@@`.
pub open spec fn kind_of(l: Seq<char>) -> LineKind {
    if l.len() > 0 && l[0] == '+' {
        LineKind::Added
    } else if l.len() > 0 && l[0] == '-' {
        LineKind::Removed
    } else if l.len() > 1 && l[0] == '@' && l[1] == '@' {
        LineKind::Hunk
    } else {
        LineKind::Plain
    }
}

/// The column of the text cursor after `n` characters typed into a box whose
/// left border is at `x`, stopping at the last column.
pub open spec fn cursor_at(x: int, n: int) -> int {
    if x + n + 1 <= u16::MAX {
        x + n + 1
    } else {
        u16::MAX as int
    }
}

/// The lines of `total` in view from line `scroll` in a box `height` rows
/// tall, two of which are its border.
pub open spec fn window(total: int, scroll: int, height: int) -> (int, int) {
    let start = if scroll < total {
        scroll
    } else {
        total
    };
    let rows = if height >= 2 {
        height - 2
    } else {
        0
    };
    (start, if start + rows < total {
        start + rows
    } else {
        total
    })
}

/// A line cut to fit a panel `width` columns wide: when it has more
/// characters than the width less eight, its first characters (three fewer
/// than that) followed by `...`.
pub open spec fn fitted(l: Seq<char>, width: int) -> Seq<char> {
    let max = if width >= 8 {
        width - 8
    } else {
        0
    };
    if l.len() > max {
        let keep = if max >= 3 {
            max - 3
        } else {
            0
        };
        l.take(keep) + "..."@
    } else {
        l
    }
}

/// The title of the file list for `n` entries.
pub open spec fn list_title(n: nat) -> Seq<char> {
    if n == 0 {
        "Git ファイル"@
    } else {
        "Git ファイル ("@ + decimal(n) + "個)"@
    }
}

/// The kind of a diff line.
pub fn line_kind(line: &str) -> (r: LineKind)
    ensures
        r == kind_of(line@),
{
    let n = line.unicode_len();
    if n > 0 && line.get_char(0) == '+' {
        LineKind::Added
    } else if n > 0 && line.get_char(0) == '-' {
        LineKind::Removed
    } else if n > 1 && line.get_char(0) == '@' && line.get_char(1) == '@' {
        LineKind::Hunk
    } else {
        LineKind::Plain
    }
}

/// The column of the text cursor after `text` in a box whose left border is
/// at `x`.
pub fn cursor_column(x: u16, text: &str) -> (r: u16)
    ensures
        r == cursor_at(x as int, text@.len() as int),
{
    let n = text.unicode_len();
    if n < (u16::MAX - x) as usize {
        x + n as u16 + 1
    } else {
        u16::MAX
    }
}

/// The first and the end line in view.
pub fn visible_range(total: usize, scroll: u16, height: u16) -> (r: (usize, usize))
    ensures
        r == ({
            let w = window(total as int, scroll as int, height as int);
            (w.0 as usize, w.1 as usize)
        }),
{
    let start: usize = if (scroll as usize) < total {
        scroll as usize
    } else {
        total
    };
    let rows: usize = if height >= 2 {
        (height - 2) as usize
    } else {
        0
    };
    let end: usize = if rows < total - start {
        start + rows
    } else {
        total
    };
    (start, end)
}

/// A line cut to fit a panel `width` columns wide.
pub fn fit_line(line: &str, width: u16) -> (r: String)
    ensures
        r@ == fitted(line@, width as int),
{
    let max: usize = if width >= 8 {
        (width - 8) as usize
    } else {
        0
    };
    let cs = chars_of(line);
    if cs.len() > max {
        let keep: usize = if max >= 3 {
            max - 3
        } else {
            0
        };
        let head = string_of_range(&cs, 0, keep);
        assert(cs@.subrange(0, keep as int) =~= line@.take(keep as int));
        join(head.as_str(), "...")
    } else {
        String::from_str(line)
    }
}

/// The title of the file list for `n` entries.
pub fn file_list_title(n: usize) -> (r: String)
    ensures
        r@ == list_title(n as nat),
{
    if n == 0 {
        String::from_str("Git ファイル")
    } else {
        let count = decimal_string(n);
        join3("Git ファイル (", count.as_str(), "個)")
    }
}

/// The lines of `text`, split at line feeds, each without a final carriage
/// return; a final line feed opens no further line.
pub fn split_lines(text: &str) -> (r: Vec<String>)
    ensures
        texts(r@) == lines(text@),
{
    let cs = chars_of(text);
    let n = cs.len();
    let mut out: Vec<String> = Vec::new();
    let mut start: usize = 0;
    let mut i: usize = 0;
    assert(cs@.subrange(0, n as int) =~= cs@);
    assert(cs@.subrange(0, 0) =~= Seq::<char>::empty());
    while i < n
        invariant
            n == cs@.len(),
            cs@ == text@,
            start <= i <= n,
            lines(text@) == texts(out@) + lines_after(
                cs@.subrange(i as int, n as int),
                cs@.subrange(start as int, i as int),
            ),
        decreases n - i,
    {
        let ghost rest = cs@.subrange(i as int, n as int);
        let ghost cur = cs@.subrange(start as int, i as int);
        assert(rest.drop_first() =~= cs@.subrange(i + 1, n as int));
        if cs[i] == '\n' {
            let end = if i > start && cs[i - 1] == '\r' {
                i - 1
            } else {
                i
            };
            assert(strip_cr(cur) =~= cs@.subrange(start as int, end as int));
            let ghost tail = lines_after(cs@.subrange(i + 1, n as int), seq![]);
            let ghost before = texts(out@);
            out.push(string_of_range(&cs, start, end));
            assert(texts(out@) =~= before.push(strip_cr(cur)));
            assert(before + (seq![strip_cr(cur)] + tail) =~= before.push(strip_cr(cur)) + tail);
            start = i + 1;
            assert(cs@.subrange(start as int, i + 1) =~= Seq::<char>::empty());
        } else {
            assert(cur.push(cs@[i as int]) =~= cs@.subrange(start as int, i + 1));
        }
        i = i + 1;
    }
    let ghost cur = cs@.subrange(start as int, n as int);
    assert(cs@.subrange(n as int, n as int) =~= Seq::<char>::empty());
    if start < n {
        let end = if cs[n - 1] == '\r' {
            n - 1
        } else {
            n
        };
        assert(strip_cr(cur) =~= cs@.subrange(start as int, end as int));
        assert(lines_after(cs@.subrange(n as int, n as int), cur) == seq![strip_cr(cur)]);
        let ghost before = texts(out@);
        out.push(string_of_range(&cs, start, end));
        assert(texts(out@) =~= before + seq![strip_cr(cur)]);
    } else {
        assert(cur =~= Seq::<char>::empty());
        assert(lines_after(cs@.subrange(n as int, n as int), cur) == Seq::<Seq<char>>::empty());
        assert(texts(out@) + Seq::<Seq<char>>::empty() =~= texts(out@));
    }
    out
}

} // verus!
