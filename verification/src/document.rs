//! An ordered, immutable sequence of rows, built once from the full text of
//! a file. Text is split at `'\n'`; a `'\r'` standing right before the split
//! is dropped, and a final line break produces no extra empty row.
use vstd::prelude::*;

use crate::row::{expand_tabs, Row};

verus! {

/// `s` without a single trailing carriage return, if it has one.
pub open spec fn strip_cr(s: Seq<char>) -> Seq<char> {
    if s.len() > 0 && s.last() == '\r' {
        s.drop_last()
    } else {
        s
    }
}

/// Splits `s` at `'\n'`, with `cur` the part of the current line read so
/// far. A line ended by `'\n'` loses a trailing `'\r'`; the unterminated
/// final part keeps its characters and is dropped only when empty.
pub open spec fn split_rec(s: Seq<char>, cur: Seq<char>) -> Seq<Seq<char>>
    decreases s.len(),
{
    if s.len() == 0 {
        if cur.len() == 0 {
            Seq::empty()
        } else {
            seq![cur]
        }
    } else if s[0] == '\n' {
        seq![strip_cr(cur)] + split_rec(s.drop_first(), Seq::empty())
    } else {
        split_rec(s.drop_first(), cur.push(s[0]))
    }
}

/// The lines of `s`, in file order.
pub open spec fn split_lines(s: Seq<char>) -> Seq<Seq<char>> {
    split_rec(s, Seq::empty())
}

/// The rows a document built from `text` holds: its lines, each with tabs
/// expanded.
pub open spec fn rows_of_text(text: Seq<char>) -> Seq<Seq<char>> {
    split_lines(text).map_values(|l: Seq<char>| expand_tabs(l))
}

/// A loaded document: the file's rows and, when known, its name.
pub struct Document {
    pub fname: Option<String>,
    rows: Vec<Row>,
}

/// The characters of an optional name.
pub open spec fn opt_str_view(o: Option<String>) -> Option<Seq<char>> {
    match o {
        Some(s) => Some(s@),
        None => None,
    }
}

impl View for Document {
    type V = Seq<Seq<char>>;

    closed spec fn view(&self) -> Seq<Seq<char>> {
        self.rows@.map_values(|r: Row| r@)
    }
}

/// Splits `text` into its raw (not yet tab-expanded) lines.
fn split_into_lines(text: &str) -> (lines: Vec<String>)
    ensures
        lines@.map_values(|l: String| l@) == split_lines(text@),
{
    let len: usize = text.unicode_len();
    let mut lines: Vec<String> = Vec::new();
    let mut cur: String = String::new();
    let mut i: usize = 0;
    proof {
        assert(text@.subrange(0, len as int) =~= text@);
        assert(cur@ =~= Seq::<char>::empty());
        assert(lines@.map_values(|l: String| l@) =~= Seq::<Seq<char>>::empty());
        assert(lines@.map_values(|l: String| l@) + split_rec(
            text@.subrange(0, len as int),
            cur@,
        ) =~= split_lines(text@));
    }
    while i < len
        invariant
            i <= len,
            len == text@.len(),
            split_lines(text@) == lines@.map_values(|l: String| l@) + split_rec(
                text@.subrange(i as int, len as int),
                cur@,
            ),
        decreases len - i,
    {
        let ghost rest = text@.subrange(i as int, len as int);
        proof {
            assert(rest[0] == text@[i as int]);
            assert(rest.drop_first() =~= text@.subrange(i + 1, len as int));
        }
        let c: char = text.get_char(i);
        if c == '\n' {
            let ghost cur_v = cur@;
            let cur_len: usize = cur.as_str().unicode_len();
            let stripped: String = if cur_len > 0 && cur.as_str().get_char(cur_len - 1) == '\r' {
                String::from_str(cur.as_str().substring_char(0, cur_len - 1))
            } else {
                cur
            };
            proof {
                assert(stripped@ =~= strip_cr(cur_v));
            }
            let ghost lines_pre = lines@;
            lines.push(stripped);
            cur = String::new();
            proof {
                assert(cur@ =~= Seq::<char>::empty());
                assert(lines@.map_values(|l: String| l@) =~= lines_pre.map_values(
                    |l: String| l@,
                ).push(strip_cr(cur_v)));
                assert(split_rec(rest, cur_v) == seq![strip_cr(cur_v)] + split_rec(
                    rest.drop_first(),
                    Seq::empty(),
                ));
                assert(lines@.map_values(|l: String| l@) + split_rec(
                    text@.subrange(i + 1, len as int),
                    cur@,
                ) =~= lines_pre.map_values(|l: String| l@) + split_rec(rest, cur_v));
            }
        } else {
            let ghost cur_v = cur@;
            let piece: &str = text.substring_char(i, i + 1);
            cur.append(piece);
            proof {
                assert(cur@ =~= cur_v.push(c));
                assert(split_rec(rest, cur_v) == split_rec(rest.drop_first(), cur_v.push(rest[0])));
                assert(lines@.map_values(|l: String| l@) + split_rec(
                    text@.subrange(i + 1, len as int),
                    cur@,
                ) =~= lines@.map_values(|l: String| l@) + split_rec(rest, cur_v));
            }
        }
        i = i + 1;
    }
    proof {
        assert(text@.subrange(len as int, len as int) =~= Seq::<char>::empty());
    }
    if cur.as_str().unicode_len() > 0 {
        let ghost lines_pre = lines@;
        let ghost cur_v = cur@;
        lines.push(cur);
        proof {
            assert(split_rec(Seq::<char>::empty(), cur_v) == seq![cur_v]);
            assert(lines@.map_values(|l: String| l@) =~= lines_pre.map_values(
                |l: String| l@,
            ).push(cur_v));
            assert(lines@.map_values(|l: String| l@) =~= split_lines(text@));
        }
    } else {
        proof {
            assert(split_rec(Seq::<char>::empty(), cur@) =~= Seq::<Seq<char>>::empty());
            assert(lines@.map_values(|l: String| l@) =~= split_lines(text@));
        }
    }
    lines
}

impl Document {
    /// The document's name, when it has one, as a character sequence.
    pub closed spec fn name_view(&self) -> Option<Seq<char>> {
        opt_str_view(self.fname)
    }

    /// Builds a document from a file's full text: one row per line, tabs
    /// expanded, row order matching file order.
    pub fn from_text(fname: Option<String>, text: &str) -> (d: Document)
        ensures
            d@ == rows_of_text(text@),
            d.name_view() == opt_str_view(fname),
    {
        let lines: Vec<String> = split_into_lines(text);
        let mut rows: Vec<Row> = Vec::new();
        let n: usize = lines.len();
        let mut j: usize = 0;
        while j < n
            invariant
                j <= n,
                n == lines@.len(),
                lines@.map_values(|l: String| l@) == split_lines(text@),
                rows@.len() == j,
                forall|k: int|
                    0 <= k < j ==> #[trigger] rows@[k]@ == expand_tabs(split_lines(text@)[k]),
            decreases n - j,
        {
            let row: Row = Row::new(lines[j].as_str());
            rows.push(row);
            j = j + 1;
        }
        let d = Document { fname, rows };
        proof {
            assert(d@ =~= rows_of_text(text@));
        }
        d
    }

    /// The stored file name, as the surrounding code reads it.
    pub fn name(&self) -> (r: &Option<String>)
        ensures
            opt_str_view(*r) == self.name_view(),
    {
        &self.fname
    }

    /// The row at `index`, when it exists.
    pub fn row(&self, index: usize) -> (r: Option<&Row>)
        ensures
            match r {
                Some(row) => index < self@.len() && row@ == self@[index as int],
                None => index >= self@.len(),
            },
    {
        if index < self.rows.len() {
            Some(&self.rows[index])
        } else {
            None
        }
    }

    /// Whether the document has no rows at all.
    pub fn is_empty(&self) -> (e: bool)
        ensures
            e == (self@.len() == 0),
    {
        self.rows.len() == 0
    }

    /// The number of rows.
    pub fn len(&self) -> (l: usize)
        ensures
            l == self@.len(),
    {
        self.rows.len()
    }
}

impl Default for Document {
    /// The empty, nameless document.
    fn default() -> (d: Document)
        ensures
            d@ == Seq::<Seq<char>>::empty(),
            d.name_view() is None,
    {
        let d = Document { fname: None, rows: Vec::new() };
        proof {
            assert(d@ =~= Seq::<Seq<char>>::empty());
        }
        d
    }
}

} // verus!
