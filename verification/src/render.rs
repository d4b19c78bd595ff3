//! Pure rendering: the text of every visible terminal row, the status
//! line and the transient message line. Each function returns the line's
//! characters; printing them, colouring the status band and moving the
//! terminal cursor are the caller's business.
use vstd::prelude::*;

use crate::editor::{Editor, Position};
use crate::row::{rendered, Row};

verus! {

/// How many characters of the file name the status line shows at most.
pub const NAME_WIDTH: usize = 20;

/// How long a posted message stays visible, in milliseconds.
pub const MESSAGE_LIFE_MS: u64 = 5000;

/// The decimal digit character for `d`.
pub open spec fn dec_digit(d: int) -> char {
    if d == 0 {
        '0'
    } else if d == 1 {
        '1'
    } else if d == 2 {
        '2'
    } else if d == 3 {
        '3'
    } else if d == 4 {
        '4'
    } else if d == 5 {
        '5'
    } else if d == 6 {
        '6'
    } else if d == 7 {
        '7'
    } else if d == 8 {
        '8'
    } else {
        '9'
    }
}

/// The decimal digits of `n`, most significant first, without leading
/// zeros (a single `'0'` for 0).
pub open spec fn dec_seq(n: int) -> Seq<char>
    decreases n,
{
    if n < 10 {
        seq![dec_digit(n)]
    } else {
        dec_seq(n / 10).push(dec_digit(n % 10))
    }
}

/// `n` spaces.
pub open spec fn spaces_seq(n: int) -> Seq<char> {
    Seq::new(if n >= 0 {
        n as nat
    } else {
        0
    }, |i: int| ' ')
}

/// The first `n` characters of `s`, or all of `s` when it is shorter.
pub open spec fn truncated(s: Seq<char>, n: int) -> Seq<char> {
    if s.len() <= n {
        s
    } else if n < 0 {
        Seq::empty()
    } else {
        s.subrange(0, n)
    }
}

/// A one-character string holding the decimal digit for `d`.
fn digit_str(d: usize) -> (r: &'static str)
    requires
        d < 10,
    ensures
        r@ == seq![dec_digit(d as int)],
{
    proof {
        reveal_strlit("0");
        reveal_strlit("1");
        reveal_strlit("2");
        reveal_strlit("3");
        reveal_strlit("4");
        reveal_strlit("5");
        reveal_strlit("6");
        reveal_strlit("7");
        reveal_strlit("8");
        reveal_strlit("9");
    }
    let r: &'static str = if d == 0 {
        "0"
    } else if d == 1 {
        "1"
    } else if d == 2 {
        "2"
    } else if d == 3 {
        "3"
    } else if d == 4 {
        "4"
    } else if d == 5 {
        "5"
    } else if d == 6 {
        "6"
    } else if d == 7 {
        "7"
    } else if d == 8 {
        "8"
    } else {
        "9"
    };
    proof {
        assert(r@ =~= seq![dec_digit(d as int)]);
    }
    r
}

/// Writes `n` in decimal.
pub fn to_decimal(n: usize) -> (r: String)
    ensures
        r@ == dec_seq(n as int),
    decreases n,
{
    if n < 10 {
        String::from_str(digit_str(n))
    } else {
        let mut r: String = to_decimal(n / 10);
        r.append(digit_str(n % 10));
        proof {
            assert(r@ =~= dec_seq(n as int));
        }
        r
    }
}

/// A run of `n` spaces.
pub fn spaces(n: usize) -> (r: String)
    ensures
        r@ == spaces_seq(n as int),
{
    let mut r: String = String::new();
    let mut i: usize = 0;
    proof {
        assert(r@ =~= spaces_seq(0));
    }
    while i < n
        invariant
            i <= n,
            r@ == spaces_seq(i as int),
        decreases n - i,
    {
        r.append(" ");
        proof {
            reveal_strlit(" ");
            assert(r@ =~= spaces_seq(i + 1));
        }
        i = i + 1;
    }
    r
}

/// The first `n` characters of `s`.
pub fn truncate_chars(s: &str, n: usize) -> (r: String)
    ensures
        r@ == truncated(s@, n as int),
{
    let len: usize = s.unicode_len();
    if len <= n {
        String::from_str(s)
    } else {
        String::from_str(s.substring_char(0, n))
    }
}

/// The banner shown in an empty document.
pub open spec fn welcome_text() -> Seq<char> {
    "Hecto editor -- version 0.1.0"@
}

/// The welcome banner as one terminal row: a `'~'`, then spaces centring
/// the banner text, the whole cut to the terminal width.
pub open spec fn welcome_line_spec(width: int) -> Seq<char> {
    let w = welcome_text();
    let padding = if width >= w.len() {
        (width - w.len()) / 2
    } else {
        0
    };
    let pad = if padding >= 1 {
        padding - 1
    } else {
        0
    };
    truncated("~"@ + spaces_seq(pad) + w, width)
}

/// Builds the welcome banner row for a terminal `width` columns wide.
pub fn welcome_line(width: usize) -> (r: String)
    ensures
        r@ == welcome_line_spec(width as int),
{
    let wlen: usize = "Hecto editor -- version 0.1.0".unicode_len();
    let padding: usize = if width >= wlen {
        (width - wlen) / 2
    } else {
        0
    };
    let pad: usize = if padding >= 1 {
        padding - 1
    } else {
        0
    };
    let mut line: String = String::from_str("~");
    line.append(spaces(pad).as_str());
    line.append("Hecto editor -- version 0.1.0");
    truncate_chars(line.as_str(), width)
}

/// What terminal row `r` shows: the visible slice of the document row it
/// maps to; past the document, the welcome banner at a third of the screen
/// height when the document is empty, and a bare `'~'` filler otherwise.
pub open spec fn screen_row_spec(
    doc: Seq<Seq<char>>,
    off_x: int,
    off_y: int,
    width: int,
    height: int,
    r: int,
) -> Seq<char> {
    if r + off_y < doc.len() {
        rendered(doc[r + off_y], off_x, off_x + width)
    } else if doc.len() == 0 && r == height / 3 {
        welcome_line_spec(width)
    } else {
        "~"@
    }
}

/// The visible part of the line the status bar shows for the file name.
pub open spec fn name_part_spec(fname: Option<Seq<char>>) -> Seq<char> {
    match fname {
        Some(nm) => "["@ + truncated(nm, NAME_WIDTH as int) + "]"@,
        None => "[No Name]"@,
    }
}

/// The status line before padding: the bracketed (possibly truncated)
/// file name, then `line/total` for the cursor's one-based row.
pub open spec fn status_text_spec(fname: Option<Seq<char>>, line_no: int, total: int) -> Seq<
    char,
> {
    name_part_spec(fname) + " - "@ + dec_seq(line_no) + "/"@ + dec_seq(total)
}

/// The full status line: the status text, right-padded with spaces to the
/// terminal width.
pub open spec fn status_line_spec(
    fname: Option<Seq<char>>,
    line_no: int,
    total: int,
    width: int,
) -> Seq<char> {
    let status = status_text_spec(fname, line_no, total);
    status + spaces_seq(width - status.len())
}

/// Whether a message posted at `time` is still visible at `now` (both in
/// milliseconds on the caller's clock; a clock that moved backwards keeps
/// the message visible).
pub open spec fn message_visible(time: int, now: int) -> bool {
    now - time < MESSAGE_LIFE_MS
}

/// The message line: the message cut to the terminal width while it is
/// visible, an empty line afterwards.
pub open spec fn message_line_spec(text: Seq<char>, time: int, now: int, width: int) -> Seq<
    char,
> {
    if message_visible(time, now) {
        truncated(text, width)
    } else {
        Seq::empty()
    }
}

impl Editor {
    /// The visible slice of one document row, between the scroll offset
    /// and the right edge of a terminal `width` columns wide.
    pub fn draw_row(&self, row: &Row, width: usize) -> (r: String)
        requires
            self.offset.x + width <= usize::MAX,
        ensures
            r@ == rendered(row@, self.offset.x as int, self.offset.x + width),
    {
        row.render(self.offset.x, self.offset.x + width)
    }

    /// The text of every terminal row of one frame, top to bottom.
    pub fn draw_rows(&self, width: usize, height: usize) -> (lines: Vec<String>)
        requires
            self.offset.x + width <= usize::MAX,
            self.offset.y + height <= usize::MAX,
        ensures
            lines@.len() == height,
            forall|r: int|
                0 <= r < height ==> #[trigger] lines@[r]@ == screen_row_spec(
                    self.document@,
                    self.offset.x as int,
                    self.offset.y as int,
                    width as int,
                    height as int,
                    r,
                ),
    {
        let mut lines: Vec<String> = Vec::new();
        let mut r: usize = 0;
        while r < height
            invariant
                r <= height,
                self.offset.x + width <= usize::MAX,
                self.offset.y + height <= usize::MAX,
                lines@.len() == r,
                forall|k: int|
                    0 <= k < r ==> #[trigger] lines@[k]@ == screen_row_spec(
                        self.document@,
                        self.offset.x as int,
                        self.offset.y as int,
                        width as int,
                        height as int,
                        k,
                    ),
            decreases height - r,
        {
            let line: String = match self.document.row(r + self.offset.y) {
                Some(row) => self.draw_row(row, width),
                None => {
                    if self.document.is_empty() && r == height / 3 {
                        welcome_line(width)
                    } else {
                        String::from_str("~")
                    }
                },
            };
            lines.push(line);
            r = r + 1;
        }
        lines
    }

    /// The status line for the current cursor row, padded to the terminal
    /// width.
    pub fn draw_status_bar(&self, width: usize) -> (r: String)
        requires
            self.cur_pos.y < usize::MAX,
        ensures
            r@ == status_line_spec(
                self.document.name_view(),
                self.cur_pos.y + 1,
                self.document@.len() as int,
                width as int,
            ),
    {
        let mut status: String = match self.document.name() {
            Some(nm) => {
                let mut s: String = String::from_str("[");
                s.append(truncate_chars(nm.as_str(), NAME_WIDTH).as_str());
                s.append("]");
                s
            },
            None => String::from_str("[No Name]"),
        };
        status.append(" - ");
        status.append(to_decimal(self.cur_pos.y + 1).as_str());
        status.append("/");
        status.append(to_decimal(self.document.len()).as_str());
        let slen: usize = status.as_str().unicode_len();
        let tail: String = spaces(if width > slen {
            width - slen
        } else {
            0
        });
        status.append(tail.as_str());
        proof {
            assert(status@ =~= status_line_spec(
                self.document.name_view(),
                self.cur_pos.y + 1,
                self.document@.len() as int,
                width as int,
            ));
        }
        status
    }

    /// The message line at time `now`: the current message while it is
    /// fresh, an empty line once it expired.
    pub fn draw_message_bar(&self, now: u64, width: usize) -> (r: String)
        ensures
            r@ == message_line_spec(
                self.status_message.text@,
                self.status_message.time as int,
                now as int,
                width as int,
            ),
    {
        let visible: bool = if now >= self.status_message.time {
            now - self.status_message.time < MESSAGE_LIFE_MS
        } else {
            true
        };
        if visible {
            truncate_chars(self.status_message.text.as_str(), width)
        } else {
            String::new()
        }
    }

    /// Assembles the full frame for one redraw at time `now`. Callable only
    /// while the cursor is inside the viewport, which `update_offset`
    /// re-establishes after every move.
    pub fn build_frame(&self, width: usize, height: usize, now: u64) -> (f: Frame)
        requires
            self.offset.x + width <= usize::MAX,
            self.offset.y + height <= usize::MAX,
            self.cur_pos.y < usize::MAX,
            self.offset.x <= self.cur_pos.x,
            self.offset.y <= self.cur_pos.y,
        ensures
            f.rows@.len() == height,
            forall|r: int|
                0 <= r < height ==> #[trigger] f.rows@[r]@ == screen_row_spec(
                    self.document@,
                    self.offset.x as int,
                    self.offset.y as int,
                    width as int,
                    height as int,
                    r,
                ),
            f.status@ == status_line_spec(
                self.document.name_view(),
                self.cur_pos.y + 1,
                self.document@.len() as int,
                width as int,
            ),
            f.message@ == message_line_spec(
                self.status_message.text@,
                self.status_message.time as int,
                now as int,
                width as int,
            ),
            f.cursor.x == self.cur_pos.x - self.offset.x,
            f.cursor.y == self.cur_pos.y - self.offset.y,
    {
        Frame {
            rows: self.draw_rows(width, height),
            status: self.draw_status_bar(width),
            message: self.draw_message_bar(now, width),
            cursor: self.physical_cursor(),
        }
    }
}

/// One complete redraw as a value: the text of every terminal row, the two
/// bars, and the coordinate the terminal cursor belongs at. Built in full,
/// then committed to the screen as one unit, so no partial redraw is ever
/// observable.
pub struct Frame {
    pub rows: Vec<String>,
    pub status: String,
    pub message: String,
    pub cursor: Position,
}

} // verus!
