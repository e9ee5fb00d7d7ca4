//! The editor engine: cursor state, key handling and frame rendering.
//!
//! The engine owns the cursor position, the screen geometry, the single
//! displayed line and the frame accumulator.  Each render cycle builds
//! one complete frame — hide the cursor, repaint every row, position the
//! cursor, show it again — and hands the bytes out to be written in a
//! single call.

use vstd::prelude::*;

use crate::append_buffer::AppendBuffer;
use crate::errors::CoreError;
use crate::input::KeyEvent;
use crate::terminal::{
    cursor_position_start, erase_line, hide_cursor, set_cursor_position_buffer, show_cursor,
    spec_crlf, spec_cursor_position, spec_cursor_position_start, spec_erase_line,
    spec_hide_cursor, spec_show_cursor,
};

verus! {

/// The banner shown on the welcome row while no line is loaded.
pub open spec fn spec_welcome() -> Seq<u8> {
    seq![
        0x4bu8, 0x69u8, 0x6cu8, 0x6fu8, 0x20u8, 0x65u8, 0x64u8, 0x69u8, 0x74u8, 0x6fu8, 0x72u8,
        0x20u8, 0x2du8, 0x2du8, 0x20u8, 0x76u8, 0x65u8, 0x72u8, 0x73u8, 0x69u8, 0x6fu8, 0x6eu8,
        0x20u8, 0x30u8, 0x2eu8, 0x30u8, 0x2eu8, 0x34u8,
    ]
}

/// The banner bytes, as they appear on a screen `cols` wide: truncated
/// when the screen is narrower than the banner, otherwise centered by
/// half the leftover width in leading spaces.
pub open spec fn spec_banner(cols: int) -> Seq<u8> {
    if cols <= spec_welcome().len() {
        spec_welcome().take(cols)
    } else {
        Seq::new(((cols - spec_welcome().len()) / 2) as nat, |j: int| 0x20u8) + spec_welcome()
    }
}

/// The full-screen editor state.
pub struct Editor {
    pub append_buffer: AppendBuffer,
    pub cursor_col: u16,
    pub cursor_row: u16,
    pub line: Vec<u8>,
    pub num_rows: u16,
    pub screen_cols: u16,
    pub screen_rows: u16,
}

/// `a` is `b` with at most the frame accumulator changed.
pub open spec fn same_except_buffer(a: Editor, b: Editor) -> bool {
    &&& a.cursor_col == b.cursor_col
    &&& a.cursor_row == b.cursor_row
    &&& a.line == b.line
    &&& a.num_rows == b.num_rows
    &&& a.screen_cols == b.screen_cols
    &&& a.screen_rows == b.screen_rows
}

/// The cursor after applying one key event: saturating single steps for
/// the arrows, jumps to an edge for home, end and the page keys, and no
/// change for anything else.
pub open spec fn spec_move_cursor(e: Editor, key: KeyEvent) -> Editor {
    match key {
        KeyEvent::ArrowLeft => Editor {
            cursor_col: if e.cursor_col > 0 {
                (e.cursor_col - 1) as u16
            } else {
                0u16
            },
            ..e
        },
        KeyEvent::ArrowRight => Editor {
            cursor_col: if e.cursor_col + 1 < e.screen_cols {
                (e.cursor_col + 1) as u16
            } else {
                e.cursor_col
            },
            ..e
        },
        KeyEvent::ArrowUp => Editor {
            cursor_row: if e.cursor_row > 0 {
                (e.cursor_row - 1) as u16
            } else {
                0u16
            },
            ..e
        },
        KeyEvent::ArrowDown => Editor {
            cursor_row: if e.cursor_row + 1 < e.screen_rows {
                (e.cursor_row + 1) as u16
            } else {
                e.cursor_row
            },
            ..e
        },
        KeyEvent::Home => Editor { cursor_col: 0u16, ..e },
        KeyEvent::End => Editor { cursor_col: (e.screen_cols - 1) as u16, ..e },
        KeyEvent::PageUp => Editor { cursor_row: 0u16, ..e },
        KeyEvent::PageDown => Editor { cursor_row: (e.screen_rows - 1) as u16, ..e },
        _ => e,
    }
}

/// The content of screen row `i`: the stored line (truncated to the
/// screen width) on its row, the banner on the welcome row while no line
/// is loaded, and a tilde on every other row.
pub open spec fn spec_row_content(e: Editor, i: int) -> Seq<u8> {
    if i < e.num_rows as int {
        if e.line@.len() <= e.screen_cols as int {
            e.line@
        } else {
            e.line@.take(e.screen_cols as int)
        }
    } else if e.num_rows == 0 && i == e.screen_rows as int / 3 {
        spec_banner(e.screen_cols as int)
    } else {
        seq![0x7eu8]
    }
}

/// Screen row `i` as rendered: its content, the erase-to-end-of-line
/// sequence, and a carriage-return line-feed on all but the last row.
pub open spec fn spec_frame_row(e: Editor, i: int) -> Seq<u8> {
    spec_row_content(e, i) + spec_erase_line() + if i + 1 < e.screen_rows as int {
        spec_crlf()
    } else {
        Seq::<u8>::empty()
    }
}

/// The first `n` rendered screen rows, concatenated.
pub open spec fn spec_rows(e: Editor, n: int) -> Seq<u8>
    decreases n,
{
    if n <= 0 {
        Seq::<u8>::empty()
    } else {
        spec_rows(e, n - 1) + spec_frame_row(e, n - 1)
    }
}

/// Rendered rows depend on everything but the frame accumulator, so two
/// states that differ only there render the same rows.
proof fn lemma_rows_congruent(a: Editor, b: Editor, n: int)
    requires
        same_except_buffer(a, b),
    ensures
        spec_rows(a, n) == spec_rows(b, n),
    decreases n,
{
    if n > 0 {
        lemma_rows_congruent(a, b, n - 1);
        assert(spec_row_content(a, n - 1) =~= spec_row_content(b, n - 1));
        assert(spec_frame_row(a, n - 1) =~= spec_frame_row(b, n - 1));
    }
}

/// One complete frame: hide the cursor, go home, repaint every row,
/// position the cursor one-indexed, show it again.
pub open spec fn spec_frame(e: Editor) -> Seq<u8> {
    spec_hide_cursor() + spec_cursor_position_start() + spec_rows(e, e.screen_rows as int)
        + spec_cursor_position((e.cursor_row + 1) as nat, (e.cursor_col + 1) as nat)
        + spec_show_cursor()
}

impl Editor {
    /// Both screen dimensions are positive, the cursor is inside them,
    /// and at most one line is loaded.
    pub open spec fn wf(&self) -> bool {
        &&& self.screen_rows >= 1
        &&& self.screen_cols >= 1
        &&& self.cursor_row < self.screen_rows
        &&& self.cursor_col < self.screen_cols
        &&& self.num_rows <= 1
    }

    /// Builds an engine for the given screen geometry, with the cursor
    /// in the upper left corner and no line loaded.  Rejects a geometry
    /// with zero rows or zero columns.
    pub fn try_new(rows: u16, cols: u16) -> (r: Result<Editor, CoreError>)
        ensures
            r is Ok <==> rows >= 1 && cols >= 1,
            r is Ok ==> ({
                let e = r->Ok_0;
                &&& e.wf()
                &&& e.screen_rows == rows
                &&& e.screen_cols == cols
                &&& e.cursor_row == 0
                &&& e.cursor_col == 0
                &&& e.num_rows == 0
                &&& e.line@ == Seq::<u8>::empty()
                &&& e.append_buffer@ == Seq::<u8>::empty()
            }),
            r is Err ==> r == Err::<Editor, CoreError>(CoreError::InvalidGeometry),
    {
        if rows == 0 || cols == 0 {
            return Err(CoreError::InvalidGeometry);
        }
        Ok(
            Editor {
                append_buffer: AppendBuffer::new(),
                cursor_col: 0,
                cursor_row: 0,
                line: Vec::new(),
                num_rows: 0,
                screen_cols: cols,
                screen_rows: rows,
            },
        )
    }

    /// Loads the first line of a file, stripping one trailing line feed
    /// if there is one.  Only the stored line and the line count change.
    pub fn open(&mut self, raw_line: Vec<u8>)
        ensures
            final(self).line@ == if raw_line@.len() > 0 && raw_line@.last() == 0x0a {
                raw_line@.drop_last()
            } else {
                raw_line@
            },
            final(self).num_rows == 1,
            final(self).cursor_col == old(self).cursor_col,
            final(self).cursor_row == old(self).cursor_row,
            final(self).screen_cols == old(self).screen_cols,
            final(self).screen_rows == old(self).screen_rows,
            final(self).append_buffer == old(self).append_buffer,
            old(self).wf() ==> final(self).wf(),
    {
        let mut line = raw_line;
        let n = line.len();
        if n > 0 && line[n - 1] == 0x0a {
            line.pop();
            assert(line@ =~= raw_line@.drop_last());
        }
        self.line = line;
        self.num_rows = 1;
    }

    /// Applies one movement key to the cursor, exactly as
    /// [`spec_move_cursor`] says: the cursor saturates at the screen
    /// edges and never leaves the geometry.
    pub fn move_cursor(&mut self, key: KeyEvent)
        requires
            old(self).wf(),
        ensures
            *final(self) == spec_move_cursor(*old(self), key),
            final(self).wf(),
    {
        match key {
            KeyEvent::ArrowLeft => {
                if self.cursor_col > 0 {
                    self.cursor_col = self.cursor_col - 1;
                }
            },
            KeyEvent::ArrowRight => {
                if self.cursor_col + 1 < self.screen_cols {
                    self.cursor_col = self.cursor_col + 1;
                }
            },
            KeyEvent::ArrowUp => {
                if self.cursor_row > 0 {
                    self.cursor_row = self.cursor_row - 1;
                }
            },
            KeyEvent::ArrowDown => {
                if self.cursor_row + 1 < self.screen_rows {
                    self.cursor_row = self.cursor_row + 1;
                }
            },
            KeyEvent::Home => {
                self.cursor_col = 0;
            },
            KeyEvent::End => {
                self.cursor_col = self.screen_cols - 1;
            },
            KeyEvent::PageUp => {
                self.cursor_row = 0;
            },
            KeyEvent::PageDown => {
                self.cursor_row = self.screen_rows - 1;
            },
            _ => {},
        }
    }

    /// Handles one decoded key event.  Returns true exactly on the exit
    /// control event, whatever the cursor position; every other event
    /// moves the cursor as [`spec_move_cursor`] says and continues.
    pub fn process_keypress(&mut self, key: KeyEvent) -> (quit: bool)
        requires
            old(self).wf(),
        ensures
            quit <==> key == KeyEvent::ControlExit,
            quit ==> *final(self) == *old(self),
            !quit ==> *final(self) == spec_move_cursor(*old(self), key),
            final(self).wf(),
    {
        match key {
            KeyEvent::ControlExit => true,
            _ => {
                self.move_cursor(key);
                false
            },
        }
    }

    /// Appends rendered screen row `i` to the frame accumulator.
    fn append_row(&mut self, i: u16)
        requires
            old(self).wf(),
            i < old(self).screen_rows,
        ensures
            same_except_buffer(*final(self), *old(self)),
            final(self).append_buffer@ == old(self).append_buffer@ + spec_frame_row(
                *old(self),
                i as int,
            ),
    {
        let ghost e0 = *old(self);
        if i < self.num_rows {
            let limit: usize = if self.line.len() <= self.screen_cols as usize {
                self.line.len()
            } else {
                self.screen_cols as usize
            };
            let mut j: usize = 0;
            while j < limit
                invariant
                    j <= limit,
                    limit <= self.line@.len(),
                    same_except_buffer(*self, e0),
                    self.append_buffer@ == e0.append_buffer@ + self.line@.subrange(0, j as int),
                decreases limit - j,
            {
                let b = self.line[j];
                self.append_buffer.push_byte(b);
                assert(self.line@.subrange(0, j + 1) =~= self.line@.subrange(0, j as int).push(
                    self.line@[j as int],
                ));
                j = j + 1;
            }
            proof {
                if e0.line@.len() <= e0.screen_cols as int {
                    assert(e0.line@.subrange(0, limit as int) =~= e0.line@);
                } else {
                    assert(e0.line@.subrange(0, limit as int) =~= e0.line@.take(
                        e0.screen_cols as int,
                    ));
                }
            }
        } else if self.num_rows == 0 && i == self.screen_rows / 3 {
            let message = welcome_message();
            if self.screen_cols as usize <= message.len() {
                let mut message = message;
                message.truncate(self.screen_cols as usize);
                self.append_buffer.append(message.as_slice());
                assert(message@ =~= spec_banner(e0.screen_cols as int));
            } else {
                let padding: usize = (self.screen_cols as usize - message.len()) / 2;
                let mut p: usize = 0;
                while p < padding
                    invariant
                        p <= padding,
                        same_except_buffer(*self, e0),
                        self.append_buffer@ == e0.append_buffer@ + Seq::new(
                            p as nat,
                            |k: int| 0x20u8,
                        ),
                    decreases padding - p,
                {
                    self.append_buffer.push_byte(0x20);
                    assert(Seq::new((p + 1) as nat, |k: int| 0x20u8) =~= Seq::new(
                        p as nat,
                        |k: int| 0x20u8,
                    ).push(0x20u8));
                    p = p + 1;
                }
                self.append_buffer.append(message.as_slice());
                assert(self.append_buffer@ =~= e0.append_buffer@ + spec_banner(
                    e0.screen_cols as int,
                ));
            }
        } else {
            self.append_buffer.push_byte(0x7e);
        }
        assert(self.append_buffer@ =~= e0.append_buffer@ + spec_row_content(e0, i as int));
        let el = erase_line();
        self.append_buffer.append(el.as_slice());
        if i + 1 < self.screen_rows {
            self.append_buffer.push_byte(0x0d);
            self.append_buffer.push_byte(0x0a);
        }
        assert(self.append_buffer@ =~= e0.append_buffer@ + spec_frame_row(e0, i as int));
    }

    /// Appends every screen row to the frame accumulator, top to bottom.
    pub fn draw_rows(&mut self)
        requires
            old(self).wf(),
        ensures
            same_except_buffer(*final(self), *old(self)),
            final(self).append_buffer@ == old(self).append_buffer@ + spec_rows(
                *old(self),
                old(self).screen_rows as int,
            ),
    {
        let ghost e0 = *old(self);
        let rows = self.screen_rows;
        let mut i: u16 = 0;
        while i < rows
            invariant
                i <= rows,
                rows == e0.screen_rows,
                e0.wf(),
                same_except_buffer(*self, e0),
                self.append_buffer@ == e0.append_buffer@ + spec_rows(e0, i as int),
            decreases rows - i,
        {
            let ghost prev = *self;
            self.append_row(i);
            proof {
                assert(spec_row_content(prev, i as int) =~= spec_row_content(e0, i as int));
                assert(spec_frame_row(prev, i as int) =~= spec_frame_row(e0, i as int));
                assert(self.append_buffer@ =~= e0.append_buffer@ + spec_rows(e0, i + 1));
            }
            i = i + 1;
        }
    }

    /// Builds one complete frame from an empty accumulator and hands the
    /// bytes out, leaving the accumulator empty for the next cycle.
    pub fn refresh_screen(&mut self) -> (frame: Vec<u8>)
        requires
            old(self).wf(),
            old(self).append_buffer@ == Seq::<u8>::empty(),
        ensures
            frame@ == spec_frame(*old(self)),
            same_except_buffer(*final(self), *old(self)),
            final(self).append_buffer@ == Seq::<u8>::empty(),
            final(self).wf(),
    {
        let ghost e0 = *old(self);
        let hide = hide_cursor();
        self.append_buffer.append(hide.as_slice());
        let home = cursor_position_start();
        self.append_buffer.append(home.as_slice());
        let ghost mid = *self;
        self.draw_rows();
        proof {
            lemma_rows_congruent(mid, e0, mid.screen_rows as int);
        }
        set_cursor_position_buffer(
            self.cursor_row + 1,
            self.cursor_col + 1,
            &mut self.append_buffer.chars,
        );
        let show = show_cursor();
        self.append_buffer.append(show.as_slice());
        let frame = self.append_buffer.take();
        proof {
            assert(frame@ =~= spec_frame(e0));
        }
        frame
    }
}

/// Executable form of [`spec_welcome`].
pub fn welcome_message() -> (v: Vec<u8>)
    ensures
        v@ == spec_welcome(),
{
    let mut v: Vec<u8> = Vec::new();
    v.push(0x4b);
    v.push(0x69);
    v.push(0x6c);
    v.push(0x6f);
    v.push(0x20);
    v.push(0x65);
    v.push(0x64);
    v.push(0x69);
    v.push(0x74);
    v.push(0x6f);
    v.push(0x72);
    v.push(0x20);
    v.push(0x2d);
    v.push(0x2d);
    v.push(0x20);
    v.push(0x76);
    v.push(0x65);
    v.push(0x72);
    v.push(0x73);
    v.push(0x69);
    v.push(0x6f);
    v.push(0x6e);
    v.push(0x20);
    v.push(0x30);
    v.push(0x2e);
    v.push(0x30);
    v.push(0x2e);
    v.push(0x34);
    assert(v@ =~= spec_welcome());
    v
}

/// At the left edge a left arrow leaves the editor unchanged, so any
/// number of repeated left arrows keeps the column at zero.
pub proof fn lemma_arrow_left_saturates(e: Editor)
    requires
        e.cursor_col == 0,
    ensures
        spec_move_cursor(e, KeyEvent::ArrowLeft) == e,
{
}

/// At the right edge a right arrow leaves the editor unchanged, so the
/// column never exceeds the last one.
pub proof fn lemma_arrow_right_saturates(e: Editor)
    requires
        e.cursor_col == e.screen_cols - 1,
    ensures
        spec_move_cursor(e, KeyEvent::ArrowRight) == e,
{
}

/// At the top row an up arrow leaves the editor unchanged.
pub proof fn lemma_arrow_up_saturates(e: Editor)
    requires
        e.cursor_row == 0,
    ensures
        spec_move_cursor(e, KeyEvent::ArrowUp) == e,
{
}

/// At the bottom row a down arrow leaves the editor unchanged.
pub proof fn lemma_arrow_down_saturates(e: Editor)
    requires
        e.cursor_row == e.screen_rows - 1,
    ensures
        spec_move_cursor(e, KeyEvent::ArrowDown) == e,
{
}

/// No key event ever moves the cursor out of the screen geometry.
pub proof fn lemma_move_cursor_preserves_bounds(e: Editor, key: KeyEvent)
    requires
        e.wf(),
    ensures
        spec_move_cursor(e, key).wf(),
{
}

/// A single page-up puts the cursor on the top row, from any row.
pub proof fn lemma_page_up_reaches_top(e: Editor)
    ensures
        spec_move_cursor(e, KeyEvent::PageUp).cursor_row == 0,
{
}

/// A single page-down puts the cursor on the bottom row, from any row.
pub proof fn lemma_page_down_reaches_bottom(e: Editor)
    requires
        e.screen_rows >= 1,
    ensures
        spec_move_cursor(e, KeyEvent::PageDown).cursor_row == e.screen_rows - 1,
{
}

} // verus!
