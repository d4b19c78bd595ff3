//! A single immutable line of text. Tabs are expanded to a fixed run of
//! spaces when the row is built, so that one column unit (the character
//! count) serves every later query uniformly.
use vstd::prelude::*;

verus! {

/// How many spaces stand in for one tab character.
pub const TAB_WIDTH: usize = 5;

/// One immutable line of text, tab-free after construction.
pub struct Row {
    string: String,
}

impl View for Row {
    type V = Seq<char>;

    closed spec fn view(&self) -> Seq<char> {
        self.string@
    }
}

/// The run of `TAB_WIDTH` spaces that replaces one tab character.
pub open spec fn tab_spaces() -> Seq<char> {
    Seq::new(TAB_WIDTH as nat, |i: int| ' ')
}

/// `s` with every tab replaced by `tab_spaces()`, all other characters kept
/// in order.
pub open spec fn expand_tabs(s: Seq<char>) -> Seq<char>
    decreases s.len(),
{
    if s.len() == 0 {
        Seq::empty()
    } else {
        expand_tabs(s.drop_last()) + (if s.last() == '\t' {
            tab_spaces()
        } else {
            seq![s.last()]
        })
    }
}

/// The visible slice `[start, end)` of a line, with `end` clamped to the
/// line's length and `start` clamped to the clamped `end`.
pub open spec fn rendered(line: Seq<char>, start: int, end: int) -> Seq<char> {
    let e = vstd::math::min(end, line.len() as int);
    let s = vstd::math::min(start, e);
    line.subrange(s, e)
}

impl Row {
    /// Builds a row from raw text, expanding each tab to `TAB_WIDTH` spaces.
    pub fn new(s: &str) -> (r: Row)
        ensures
            r@ == expand_tabs(s@),
    {
        let len: usize = s.unicode_len();
        let mut out: String = String::new();
        let mut i: usize = 0;
        while i < len
            invariant
                i <= len,
                len == s@.len(),
                out@ == expand_tabs(s@.subrange(0, i as int)),
            decreases len - i,
        {
            let c: char = s.get_char(i);
            if c == '\t' {
                out.append("     ");
                proof {
                    reveal_strlit("     ");
                    assert("     "@ =~= tab_spaces());
                }
            } else {
                let piece: &str = s.substring_char(i, i + 1);
                out.append(piece);
            }
            proof {
                let pre = s@.subrange(0, i as int);
                let cur = s@.subrange(0, i + 1 as int);
                assert(cur.drop_last() =~= pre);
                assert(cur.last() == s@[i as int]);
            }
            i = i + 1;
        }
        proof {
            assert(s@.subrange(0, len as int) =~= s@);
        }
        Row { string: out }
    }

    /// The visible slice `[start, end)` of the row, with both bounds clamped
    /// to the row's length (and `start` to `end`), so that every input pair
    /// degrades to a possibly empty result instead of failing.
    pub fn render(&self, start: usize, end: usize) -> (r: String)
        ensures
            r@ == rendered(self@, start as int, end as int),
            r@.len() == vstd::math::min(end as int, self@.len() as int) - vstd::math::min(
                start as int,
                vstd::math::min(end as int, self@.len() as int),
            ),
    {
        let len: usize = self.string.as_str().unicode_len();
        let e: usize = if end < len {
            end
        } else {
            len
        };
        let s: usize = if start < e {
            start
        } else {
            e
        };
        let piece: &str = self.string.as_str().substring_char(s, e);
        String::from_str(piece)
    }

    /// The row's length in characters (not bytes).
    pub fn len(&self) -> (l: usize)
        ensures
            l == self@.len(),
    {
        self.string.as_str().unicode_len()
    }
}

impl Default for Row {
    /// The empty row.
    fn default() -> (r: Row)
        ensures
            r@ == Seq::<char>::empty(),
    {
        Row { string: String::new() }
    }
}

} // verus!
