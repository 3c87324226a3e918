//! Status entries: one changed path with its index and work-tree flags, and
//! the parser that turns the text of a status query into entries.
use crate::text::{
    chars_of, is_white_space, join3, skip_white, string_of_range, trim, trim_start,
    trimmed, white_space,
};
use vstd::prelude::*;

verus! {

/// What an entry stands for: index flag, work-tree flag and path.
pub type EntryView = (char, char, Seq<char>);

/// One line of working-tree status.
#[derive(Debug, Clone, PartialEq, Eq)]
pub struct StatusEntry {
    pub index_flag: char,
    pub worktree_flag: char,
    pub path: String,
}

impl View for StatusEntry {
    type V = EntryView;

    open spec fn view(&self) -> EntryView {
        (self.index_flag, self.worktree_flag, self.path@)
    }
}

/// An entry whose index flag marks a change recorded for the next commit.
/// A blank flag means nothing is staged; `?` marks an untracked path, which is
/// not staged either.
pub open spec fn flag_staged(index_flag: char) -> bool {
    !white_space(index_flag) && index_flag != '?'
}

/// The entry that a status line stands for: two flags, then the path after
/// any white space. Lines shorter than two characters, and lines with no
/// path, stand for none.
pub open spec fn parse_line(l: Seq<char>) -> Option<EntryView> {
    if l.len() < 2 {
        None
    } else {
        let p = trim_start(l.skip(2));
        if p.len() == 0 {
            None
        } else {
            Some((l[0], l[1], p))
        }
    }
}

/// A line without the carriage return that may end it.
pub open spec fn strip_cr(l: Seq<char>) -> Seq<char> {
    if l.len() > 0 && l.last() == '\r' {
        l.drop_last()
    } else {
        l
    }
}

/// The lines of `s`, with `cur` read already as the start of the first one.
/// A final line break ends the last line and opens no new one.
pub open spec fn lines_after(s: Seq<char>, cur: Seq<char>) -> Seq<Seq<char>>
    decreases s.len(),
{
    if s.len() == 0 {
        if cur.len() == 0 {
            seq![]
        } else {
            seq![strip_cr(cur)]
        }
    } else if s[0] == '\n' {
        seq![strip_cr(cur)] + lines_after(s.drop_first(), seq![])
    } else {
        lines_after(s.drop_first(), cur.push(s[0]))
    }
}

/// The lines of `s`, split at line feeds, each without a final carriage return.
pub open spec fn lines(s: Seq<char>) -> Seq<Seq<char>> {
    lines_after(s, seq![])
}

/// The entries that `ls` stand for, in order, skipping malformed lines.
pub open spec fn entries_of(ls: Seq<Seq<char>>) -> Seq<EntryView>
    decreases ls.len(),
{
    if ls.len() == 0 {
        seq![]
    } else {
        let rest = entries_of(ls.drop_first());
        match parse_line(ls[0]) {
            Some(e) => seq![e] + rest,
            None => rest,
        }
    }
}

/// The entries that the text of a status query stands for.
pub open spec fn parse_status_text(s: Seq<char>) -> Seq<EntryView> {
    entries_of(lines(s))
}

/// The views of a sequence of entries.
pub open spec fn views(es: Seq<StatusEntry>) -> Seq<EntryView> {
    es.map_values(|e: StatusEntry| e@)
}

/// The symbol and the fixed-width label shown for a pair of flags.
pub open spec fn status_label(x: char, y: char) -> (Seq<char>, Seq<char>) {
    if x == 'M' && y == ' ' {
        ("✓"@, "STAGED   "@)
    } else if x == ' ' && y == 'M' {
        ("Δ"@, "MODIFIED "@)
    } else if x == 'A' && y == ' ' {
        ("+"@, "ADDED    "@)
    } else if (x == 'D' && y == ' ') || (x == ' ' && y == 'D') {
        ("✗"@, "DELETED  "@)
    } else if x == '?' && y == '?' {
        ("?"@, "UNTRACKED"@)
    } else if (x == 'M' || x == 'A') && y == 'M' {
        ("±"@, "PARTIAL  "@)
    } else {
        ("•"@, "CHANGED  "@)
    }
}

/// `symbol [label] path`, for the flags `x`, `y`.
pub open spec fn labelled(x: char, y: char, path: Seq<char>) -> Seq<char> {
    status_label(x, y).0 + " ["@ + status_label(x, y).1 + "] "@ + path
}

/// How a raw status line is shown: lines of fewer than three characters as
/// they are, others as their label and their trimmed path.
pub open spec fn formatted_status(l: Seq<char>) -> Seq<char> {
    if l.len() < 3 {
        l
    } else {
        labelled(l[0], l[1], trim(l.skip(2)))
    }
}

impl StatusEntry {
    /// Staged: the index flag records a change for the next commit.
    pub open spec fn staged(&self) -> bool {
        flag_staged(self.index_flag)
    }

    /// Whether the entry is staged.
    pub fn is_staged(&self) -> (r: bool)
        ensures
            r == self.staged(),
    {
        !is_white_space(self.index_flag) && self.index_flag != '?'
    }

    /// The entry that `cs[from..to]` stands for, if any.
    fn parse_range(cs: &Vec<char>, from: usize, to: usize) -> (r: Option<StatusEntry>)
        requires
            from <= to <= cs@.len(),
        ensures
            match r {
                Some(e) => parse_line(cs@.subrange(from as int, to as int)) == Some(e@),
                None => parse_line(cs@.subrange(from as int, to as int)) is None,
            },
    {
        let ghost l = cs@.subrange(from as int, to as int);
        if to - from < 2 {
            return None;
        }
        let start = skip_white(cs, from + 2, to);
        assert(l.skip(2) =~= cs@.subrange(from + 2, to as int));
        if start == to {
            return None;
        }
        let path = string_of_range(cs, start, to);
        Some(StatusEntry { index_flag: cs[from], worktree_flag: cs[from + 1], path })
    }

    /// The entry that one status line stands for, if the line is well formed.
    pub fn parse(line: &str) -> (r: Option<StatusEntry>)
        ensures
            match r {
                Some(e) => parse_line(line@) == Some(e@),
                None => parse_line(line@) is None,
            },
    {
        let cs = chars_of(line);
        assert(cs@.subrange(0, cs@.len() as int) =~= line@);
        StatusEntry::parse_range(&cs, 0, cs.len())
    }

    /// How the entry is shown in the file list.
    pub fn display(&self) -> (r: String)
        ensures
            r@ == labelled(self.index_flag, self.worktree_flag, self.path@),
    {
        let (symbol, label) = label_of(self.index_flag, self.worktree_flag);
        let mut s = join3(symbol, " [", label);
        s.append("] ");
        s.append(self.path.as_str());
        s
    }
}

/// The symbol and the label for the flags `x`, `y`.
fn label_of(x: char, y: char) -> (r: (&'static str, &'static str))
    ensures
        r.0@ == status_label(x, y).0,
        r.1@ == status_label(x, y).1,
{
    if x == 'M' && y == ' ' {
        ("✓", "STAGED   ")
    } else if x == ' ' && y == 'M' {
        ("Δ", "MODIFIED ")
    } else if x == 'A' && y == ' ' {
        ("+", "ADDED    ")
    } else if (x == 'D' && y == ' ') || (x == ' ' && y == 'D') {
        ("✗", "DELETED  ")
    } else if x == '?' && y == '?' {
        ("?", "UNTRACKED")
    } else if (x == 'M' || x == 'A') && y == 'M' {
        ("±", "PARTIAL  ")
    } else {
        ("•", "CHANGED  ")
    }
}

/// How a raw status line is shown in the file list.
pub fn format_file_status(file_status: &str) -> (r: String)
    ensures
        r@ == formatted_status(file_status@),
{
    let cs = chars_of(file_status);
    if cs.len() < 3 {
        return String::from_str(file_status);
    }
    let rest = string_of_range(&cs, 2, cs.len());
    assert(rest@ =~= file_status@.skip(2));
    let path = trimmed(rest.as_str());
    let (symbol, label) = label_of(cs[0], cs[1]);
    let mut s = join3(symbol, " [", label);
    s.append("] ");
    s.append(path.as_str());
    s
}

/// The entries of the text of a status query: one per well-formed line, in
/// the order of the lines.
pub fn parse_status(text: &str) -> (r: Vec<StatusEntry>)
    ensures
        views(r@) == parse_status_text(text@),
{
    let cs = chars_of(text);
    let n = cs.len();
    let mut out: Vec<StatusEntry> = Vec::new();
    let mut start: usize = 0;
    let mut i: usize = 0;
    assert(cs@.subrange(0, n as int) =~= cs@);
    assert(cs@.subrange(0, 0) =~= Seq::<char>::empty());
    while i < n
        invariant
            n == cs@.len(),
            cs@ == text@,
            start <= i <= n,
            parse_status_text(text@) == views(out@) + entries_of(
                lines_after(cs@.subrange(i as int, n as int), cs@.subrange(start as int, i as int)),
            ),
        decreases n - i,
    {
        let ghost rest = cs@.subrange(i as int, n as int);
        let ghost cur = cs@.subrange(start as int, i as int);
        assert(rest.drop_first() =~= cs@.subrange(i + 1, n as int));
        if cs[i] == '\n' {
            let end = if i > start && cs[i - 1] == '\r' {
                i - 1
            } else {
                i
            };
            assert(strip_cr(cur) =~= cs@.subrange(start as int, end as int));
            let ghost tail = lines_after(cs@.subrange(i + 1, n as int), seq![]);
            assert((seq![strip_cr(cur)] + tail)[0] == strip_cr(cur));
            assert((seq![strip_cr(cur)] + tail).drop_first() =~= tail);
            let ghost before = views(out@);
            match StatusEntry::parse_range(&cs, start, end) {
                Some(e) => {
                    out.push(e);
                    assert(views(out@) =~= before.push(e@));
                    assert(before + (seq![e@] + entries_of(tail)) =~= before.push(e@)
                        + entries_of(tail));
                },
                None => {},
            }
            start = i + 1;
            assert(cs@.subrange(start as int, i + 1) =~= Seq::<char>::empty());
        } else {
            assert(cur.push(cs@[i as int]) =~= cs@.subrange(start as int, i + 1));
        }
        i = i + 1;
    }
    let ghost cur = cs@.subrange(start as int, n as int);
    assert(cs@.subrange(n as int, n as int) =~= Seq::<char>::empty());
    if start < n {
        let end = if cs[n - 1] == '\r' {
            n - 1
        } else {
            n
        };
        assert(strip_cr(cur) =~= cs@.subrange(start as int, end as int));
        assert(seq![strip_cr(cur)].drop_first() =~= Seq::<Seq<char>>::empty());
        assert(lines_after(cs@.subrange(n as int, n as int), cur) == seq![strip_cr(cur)]);
        assert(entries_of(Seq::<Seq<char>>::empty()) == Seq::<EntryView>::empty());
        let ghost before = views(out@);
        match StatusEntry::parse_range(&cs, start, end) {
            Some(e) => {
                out.push(e);
                assert(views(out@) =~= before.push(e@));
                assert(before + (seq![e@] + Seq::<EntryView>::empty()) =~= before.push(e@));
            },
            None => {
                assert(before + Seq::<EntryView>::empty() =~= before);
            },
        }
    } else {
        assert(cur =~= Seq::<char>::empty());
        assert(lines_after(cs@.subrange(n as int, n as int), cur) == Seq::<Seq<char>>::empty());
        assert(views(out@) + Seq::<EntryView>::empty() =~= views(out@));
    }
    out
}

/// Whether some entry of `files` is not staged.
pub fn has_unstaged(files: &Vec<StatusEntry>) -> (r: bool)
    ensures
        r == exists|i: int| 0 <= i < files@.len() && !(#[trigger] files@[i]).staged(),
{
    let mut i: usize = 0;
    while i < files.len()
        invariant
            i <= files@.len(),
            forall|k: int| 0 <= k < i ==> (#[trigger] files@[k]).staged(),
        decreases files@.len() - i,
    {
        if !files[i].is_staged() {
            return true;
        }
        i = i + 1;
    }
    false
}

} // verus!
