//! The viewer's state and its transitions: a cursor in document
//! coordinates moved by clamping, total commands, and a scroll offset
//! recomputed minimally so the cursor stays inside the terminal window.
use vstd::math::{max, min};
use vstd::prelude::*;

use crate::document::{opt_str_view, Document};
use crate::Config;

verus! {

/// A position in document coordinates; also used for the scroll offset
/// (the document coordinates of the top-left visible cell) and for the
/// terminal's own cursor coordinate.
#[derive(Clone, Copy, PartialEq, Eq, Structural, Debug)]
pub struct Position {
    pub x: usize,
    pub y: usize,
}

impl Default for Position {
    /// The origin, `(0, 0)`.
    fn default() -> (p: Position)
        ensures
            p.x == 0 && p.y == 0,
    {
        Position { x: 0, y: 0 }
    }
}

/// The movement commands the viewer consumes.
#[derive(Clone, Copy, PartialEq, Eq, Structural, Debug)]
pub enum MoveKey {
    Left,
    Right,
    Up,
    Down,
    PageUp,
    PageDown,
    Home,
    End,
}

/// A transient one-line message and the instant it was posted, as
/// milliseconds on whatever clock the caller keeps.
pub struct StatusMessage {
    pub text: String,
    pub time: u64,
}

impl StatusMessage {
    /// Posts a new message at time `now`.
    pub fn new(text: String, now: u64) -> (m: StatusMessage)
        ensures
            m.text == text,
            m.time == now,
    {
        StatusMessage { text, time: now }
    }
}

/// The length in characters of row `y`, and 0 for an index outside the
/// document (including the valid cursor row just past the last line).
pub open spec fn row_len(doc: Seq<Seq<char>>, y: int) -> int {
    if 0 <= y < doc.len() {
        doc[y].len() as int
    } else {
        0
    }
}

/// Where one command sends the cursor, before the final column clamp.
pub open spec fn raw_move(doc: Seq<Seq<char>>, height: int, x: int, y: int, key: MoveKey) -> (
    int,
    int,
) {
    match key {
        MoveKey::Left => if x > 0 {
            (x - 1, y)
        } else if y > 0 {
            (row_len(doc, y - 1), y - 1)
        } else {
            (x, y)
        },
        MoveKey::Right => if x < row_len(doc, y) {
            (x + 1, y)
        } else if y < doc.len() {
            (0, y + 1)
        } else {
            (x, y)
        },
        MoveKey::Up => (x, max(y - 1, 0)),
        MoveKey::Down => if y < doc.len() {
            (x, y + 1)
        } else {
            (x, y)
        },
        MoveKey::PageUp => (x, max(y - height, 0)),
        MoveKey::PageDown => (x, min(y + height, doc.len() as int)),
        MoveKey::Home => (0, y),
        MoveKey::End => (row_len(doc, y), y),
    }
}

/// One movement command applied to the cursor: the raw move followed by
/// clamping the column to the landing row's length.
pub open spec fn move_pos(doc: Seq<Seq<char>>, height: int, x: int, y: int, key: MoveKey) -> (
    int,
    int,
) {
    let p = raw_move(doc, height, x, y, key);
    (min(p.0, row_len(doc, p.1)), p.1)
}

/// A cursor position the document admits: the row may equal the row count
/// (the address just past the last line), and the column may equal the
/// row's length (just past its last character).
pub open spec fn valid_pos(doc: Seq<Seq<char>>, x: int, y: int) -> bool {
    0 <= y <= doc.len() && 0 <= x <= row_len(doc, y)
}

/// The cursor reached by applying commands in order from the origin, each
/// a movement key paired with the viewport height at that moment.
pub open spec fn run_moves(doc: Seq<Seq<char>>, cmds: Seq<(MoveKey, int)>) -> (int, int)
    decreases cmds.len(),
{
    if cmds.len() == 0 {
        (0, 0)
    } else {
        let prev = run_moves(doc, cmds.drop_last());
        move_pos(doc, cmds.last().1, prev.0, prev.1, cmds.last().0)
    }
}

/// Law: a single movement command never leaves the document's bounds.
pub proof fn lemma_move_preserves_valid(
    doc: Seq<Seq<char>>,
    height: int,
    x: int,
    y: int,
    key: MoveKey,
)
    requires
        valid_pos(doc, x, y),
        height >= 0,
    ensures
        valid_pos(doc, move_pos(doc, height, x, y, key).0, move_pos(doc, height, x, y, key).1),
{
}

/// Law: every cursor position reachable from the origin by any sequence of
/// movement commands, under any (nonnegative) viewport heights, satisfies
/// `row <= doc.len()` and `column <= row_len(doc, row)`.
pub proof fn lemma_reachable_positions_valid(doc: Seq<Seq<char>>, cmds: Seq<(MoveKey, int)>)
    requires
        forall|i: int| 0 <= i < cmds.len() ==> (#[trigger] cmds[i]).1 >= 0,
    ensures
        valid_pos(doc, run_moves(doc, cmds).0, run_moves(doc, cmds).1),
    decreases cmds.len(),
{
    if cmds.len() != 0 {
        lemma_reachable_positions_valid(doc, cmds.drop_last());
        let prev = run_moves(doc, cmds.drop_last());
        lemma_move_preserves_valid(doc, cmds.last().1, prev.0, prev.1, cmds.last().0);
    }
}

/// Law: applying `Home` twice in a row yields the same cursor as applying
/// it once.
pub proof fn lemma_home_idempotent(doc: Seq<Seq<char>>, height: int, x: int, y: int)
    ensures
        move_pos(
            doc,
            height,
            move_pos(doc, height, x, y, MoveKey::Home).0,
            move_pos(doc, height, x, y, MoveKey::Home).1,
            MoveKey::Home,
        ) == move_pos(doc, height, x, y, MoveKey::Home),
{
}

/// Law: applying `End` twice in a row yields the same cursor as applying
/// it once.
pub proof fn lemma_end_idempotent(doc: Seq<Seq<char>>, height: int, x: int, y: int)
    ensures
        move_pos(
            doc,
            height,
            move_pos(doc, height, x, y, MoveKey::End).0,
            move_pos(doc, height, x, y, MoveKey::End).1,
            MoveKey::End,
        ) == move_pos(doc, height, x, y, MoveKey::End),
{
}

/// Minimal scroll of one axis: moves the window start only when the cursor
/// left it, and then by exactly the amount needed to re-include the cursor.
pub open spec fn scrolled_offset(off: int, cur: int, size: int) -> int {
    if cur < off {
        cur
    } else if cur >= off + size {
        cur - size + 1
    } else {
        off
    }
}

/// The length in characters of the document's row `y2`, 0 past the end.
pub fn doc_row_len(document: &Document, y2: usize) -> (l: usize)
    ensures
        l == row_len(document@, y2 as int),
{
    match document.row(y2) {
        Some(r) => r.len(),
        None => 0,
    }
}

/// Everything the viewer core tracks: the document, the cursor and scroll
/// offset, the quit flag, and the current transient message.
pub struct Editor {
    pub config: Config,
    pub document: Document,
    pub should_quit: bool,
    pub cur_pos: Position,
    pub offset: Position,
    pub status_message: StatusMessage,
}

impl Editor {
    /// The cursor lies inside the document's bounds.
    pub open spec fn wf(&self) -> bool {
        valid_pos(self.document@, self.cur_pos.x as int, self.cur_pos.y as int)
    }

    /// Builds the initial state: the opened document (or the empty one when
    /// none could be opened), the cursor and offset at the origin, and a
    /// first message — help, or an error naming the file that would not
    /// open.
    pub fn new(config: Config, opened: Option<Document>, now: u64) -> (e: Editor)
        ensures
            e.document@ == match opened {
                Some(d) => d@,
                None => Seq::<Seq<char>>::empty(),
            },
            e.document.name_view() == match opened {
                Some(d) => d.name_view(),
                None => None::<Seq<char>>,
            },
            e.cur_pos == (Position { x: 0usize, y: 0usize }),
            e.offset == (Position { x: 0usize, y: 0usize }),
            !e.should_quit,
            e.status_message.time == now,
            e.status_message.text@ == init_message(opt_str_view(config.fpath), opened is Some),
            e.config == config,
            e.wf(),
    {
        let opened_ok: bool = opened.is_some();
        let document: Document = match opened {
            Some(d) => d,
            None => Document::default(),
        };
        let status_text: String = if opened_ok {
            String::from_str("HELP: Ctrl-Q = quit")
        } else {
            match &config.fpath {
                Some(p) => String::from_str("ERR: Could not open file: ").concat(p.as_str()),
                None => String::from_str("HELP: Ctrl-Q = quit"),
            }
        };
        Editor {
            config,
            document,
            should_quit: false,
            cur_pos: Position { x: 0, y: 0 },
            offset: Position { x: 0, y: 0 },
            status_message: StatusMessage { text: status_text, time: now },
        }
    }

    /// Applies one movement command, given the terminal height the paging
    /// commands jump by. Total: every input clamps or saturates, nothing
    /// fails.
    pub fn move_cursor(&mut self, key: MoveKey, height: usize)
        ensures
            final(self).document == old(self).document,
            final(self).offset == old(self).offset,
            final(self).config == old(self).config,
            final(self).should_quit == old(self).should_quit,
            final(self).status_message == old(self).status_message,
            (final(self).cur_pos.x as int, final(self).cur_pos.y as int) == move_pos(
                old(self).document@,
                height as int,
                old(self).cur_pos.x as int,
                old(self).cur_pos.y as int,
                key,
            ),
            old(self).wf() ==> final(self).wf(),
    {
        let x0: usize = self.cur_pos.x;
        let y0: usize = self.cur_pos.y;
        let row_len0: usize = doc_row_len(&self.document, y0);
        let doc_len: usize = self.document.len();
        let mut x: usize = x0;
        let mut y: usize = y0;
        match key {
            MoveKey::Left => {
                if x > 0 {
                    x = x - 1;
                } else if y > 0 {
                    y = y - 1;
                    x = doc_row_len(&self.document, y);
                }
            },
            MoveKey::Right => {
                if x < row_len0 {
                    x = x + 1;
                } else if y < doc_len {
                    y = y + 1;
                    x = 0;
                }
            },
            MoveKey::Up => {
                if y > 0 {
                    y = y - 1;
                }
            },
            MoveKey::Down => {
                if y < doc_len {
                    y = y + 1;
                }
            },
            MoveKey::PageUp => {
                y = if y > height {
                    y - height
                } else {
                    0
                };
            },
            MoveKey::PageDown => {
                y = if y >= doc_len {
                    doc_len
                } else if height < doc_len - y {
                    y + height
                } else {
                    doc_len
                };
            },
            MoveKey::Home => {
                x = 0;
            },
            MoveKey::End => {
                x = row_len0;
            },
        }
        let landing_len: usize = doc_row_len(&self.document, y);
        if x > landing_len {
            x = landing_len;
        }
        self.cur_pos = Position { x, y };
    }

    /// Recomputes the scroll offset after a cursor move, shifting each axis
    /// minimally so the cursor is visible again. Afterwards the cursor lies
    /// within `[offset, offset + size)` on both axes.
    pub fn update_offset(&mut self, width: usize, height: usize)
        requires
            width >= 1,
            height >= 1,
        ensures
            final(self).document == old(self).document,
            final(self).cur_pos == old(self).cur_pos,
            final(self).config == old(self).config,
            final(self).should_quit == old(self).should_quit,
            final(self).status_message == old(self).status_message,
            final(self).offset.x as int == scrolled_offset(
                old(self).offset.x as int,
                old(self).cur_pos.x as int,
                width as int,
            ),
            final(self).offset.y as int == scrolled_offset(
                old(self).offset.y as int,
                old(self).cur_pos.y as int,
                height as int,
            ),
            final(self).offset.x <= final(self).cur_pos.x < final(self).offset.x + width,
            final(self).offset.y <= final(self).cur_pos.y < final(self).offset.y + height,
    {
        let x: usize = self.cur_pos.x;
        let y: usize = self.cur_pos.y;
        let ox: usize = self.offset.x;
        let oy: usize = self.offset.y;
        let nox: usize = if x < ox {
            x
        } else if x - ox >= width {
            x - width + 1
        } else {
            ox
        };
        let noy: usize = if y < oy {
            y
        } else if y - oy >= height {
            y - height + 1
        } else {
            oy
        };
        self.offset = Position { x: nox, y: noy };
    }

    /// The on-screen coordinate the terminal cursor belongs at. Callable
    /// only while the cursor is inside the viewport, which `update_offset`
    /// re-establishes after every move.
    pub fn physical_cursor(&self) -> (p: Position)
        requires
            self.offset.x <= self.cur_pos.x,
            self.offset.y <= self.cur_pos.y,
        ensures
            p.x == self.cur_pos.x - self.offset.x,
            p.y == self.cur_pos.y - self.offset.y,
    {
        Position { x: self.cur_pos.x - self.offset.x, y: self.cur_pos.y - self.offset.y }
    }
}

/// The help line shown on a clean start.
pub open spec fn help_text() -> Seq<char> {
    "HELP: Ctrl-Q = quit"@
}

/// What the error message for an unopenable file starts with.
pub open spec fn error_prefix() -> Seq<char> {
    "ERR: Could not open file: "@
}

/// The first transient message: an error naming the file when a path was
/// given but could not be opened, the help line otherwise.
pub open spec fn init_message(fpath: Option<Seq<char>>, opened: bool) -> Seq<char> {
    match fpath {
        Some(p) => if opened {
            help_text()
        } else {
            error_prefix() + p
        },
        None => help_text(),
    }
}

} // verus!
