//! The executable editor: cursor, scroll offset and buffer, and the
//! operations that keys are bound to.

use vstd::prelude::*;
use vstd::string::*;
use crate::event::{Action, Input, Key, Terminal, IDLE_PAUSE_MS};
use crate::frame::{
    banner, frame, hint, row_text, screen, status, ATTRIBUTION, PLACEHOLDER, ROW_BREAK, SUBTITLE,
    TITLE, VERSION,
};
use crate::model::{State, GREETING};
use crate::text::{join, line_views};

verus! {

/// Where the cursor is: a column in the addressed line and a row of the
/// viewport, both counted from zero.
#[derive(Clone, Copy, Debug, PartialEq, Eq, Structural)]
pub struct Cursor {
    pub x: u16,
    pub y: u16,
}

/// The text being edited, one `String` per line.
pub struct Buffer {
    pub lines: Vec<String>,
}

impl View for Buffer {
    type V = Seq<Seq<char>>;

    open spec fn view(&self) -> Seq<Seq<char>> {
        line_views(self.lines@)
    }
}

impl Buffer {
    /// A buffer without lines.
    pub fn new() -> (buffer: Buffer)
        ensures
            buffer@ == Seq::<Seq<char>>::empty(),
    {
        let buffer = Buffer { lines: Vec::new() };
        buffer
    }
}

/// The editor.
pub struct Editor {
    terminal: Terminal,
    kill: bool,
    cursor: Cursor,
    buffer: Buffer,
    offset: u64,
    command_bar: String,
}

impl View for Editor {
    type V = State;

    closed spec fn view(&self) -> State {
        State {
            x: self.cursor.x as int,
            y: self.cursor.y as int,
            offset: self.offset as int,
            lines: self.buffer@,
            width: self.terminal.width as int,
            height: self.terminal.height as int,
            kill: self.kill,
            command_bar: self.command_bar@,
        }
    }
}

impl Editor {
    /// The editor's invariant: the cursor addresses a line of the buffer and
    /// a column of that line.
    pub open spec fn wf(&self) -> bool {
        self@.wf()
    }

    /// An editor on `buffer` in a terminal of the given size, with the cursor
    /// at the top left and nothing scrolled.
    pub fn new(buffer: Buffer, terminal: Terminal) -> (editor: Editor)
        ensures
            editor@ == State::initial(buffer@, terminal.width as int, terminal.height as int),
            editor.wf(),
    {
        let editor = Editor {
            terminal,
            kill: false,
            cursor: Cursor { x: 0, y: 0 },
            buffer,
            offset: 0,
            command_bar: String::from_str(GREETING),
        };
        proof {
            editor.lemma_view_in_range();
        }
        editor
    }

    /// The numbers in an editor's view fit the machine types that hold them.
    pub proof fn lemma_view_in_range(&self)
        ensures
            self@.in_range(),
    {
        assert(self.buffer.lines.len() == self@.lines.len());
    }

    /// The index of the line that the cursor is on.
    fn line_index(&self) -> (i: usize)
        requires
            self@.index_valid(),
            !self@.is_empty(),
        ensures
            i == self@.index(),
            i < self.buffer.lines@.len(),
    {
        proof {
            self.lemma_view_in_range();
        }
        (self.cursor.y as u64 + self.offset) as usize
    }

    /// Pulls the column back to the end of the line that the cursor is on;
    /// with an empty buffer, to zero.
    pub fn correct_line(&mut self)
        requires
            old(self)@.index_valid(),
        ensures
            final(self)@ == old(self)@.clamp(),
            final(self).wf(),
    {
        proof {
            self.lemma_view_in_range();
        }
        if self.buffer.lines.is_empty() {
            self.cursor.x = 0;
        } else {
            let i = self.line_index();
            let len = self.buffer.lines[i].as_str().unicode_len();
            if self.cursor.x as usize > len {
                self.cursor.x = len as u16;
            }
        }
    }

    /// Appends `c` to the line that the cursor is on and moves the cursor one
    /// column right. Nothing happens on an empty buffer.
    pub fn insert(&mut self, c: char)
        requires
            old(self).wf(),
        ensures
            final(self)@ == old(self)@.insert(c),
            final(self).wf(),
    {
        if !self.buffer.lines.is_empty() {
            let i = self.line_index();
            let line = &mut self.buffer.lines[i];
            line.push(c);
            self.cursor.x = self.cursor.x.saturating_add(1);
            assert(self.buffer@ =~= old(self).buffer@.update(
                i as int,
                old(self).buffer@[i as int].push(c),
            ));
        }
    }

    /// Steps one column back and drops the character stepped over, except
    /// from column 1, where only the cursor moves. Nothing happens at column
    /// 0 or on an empty buffer.
    pub fn delete(&mut self)
        requires
            old(self).wf(),
        ensures
            final(self)@ == old(self)@.delete(),
            final(self).wf(),
    {
        if self.cursor.x != 0 && !self.buffer.lines.is_empty() {
            let i = self.line_index();
            let col = self.cursor.x - 1;
            let len = self.buffer.lines[i].as_str().unicode_len();
            let last_kept = col.saturating_sub(1) as usize;
            let keep = if last_kept + 1 <= len { last_kept + 1 } else { len };
            let resume = if col as usize + 1 <= len { col as usize + 1 } else { len };
            let line = self.buffer.lines[i].as_str();
            let mut rebuilt = String::from_str(line.substring_char(0, keep));
            rebuilt.append(line.substring_char(resume, len));
            self.buffer.lines[i] = rebuilt;
            self.cursor.x = col;
            assert(self.buffer@ =~= old(self).buffer@.update(
                i as int,
                State::line_without(old(self).buffer@[i as int], col as int),
            ));
        }
    }

    /// Goes one column left; from column 0 of any line but the first, to
    /// the end of the line above.
    pub fn move_left(&mut self)
        requires
            old(self).wf(),
        ensures
            final(self)@ == old(self)@.left(),
            final(self).wf(),
    {
        let index = self.cursor.y as u64 + self.offset;
        if self.cursor.x == 0 && index != 0 {
            if self.cursor.y == 0 {
                self.offset = self.offset.saturating_sub(1);
            }
            self.cursor.x = self.terminal.width;
            self.cursor.y = self.cursor.y.saturating_sub(1);
            self.correct_line();
        } else {
            self.cursor.x = self.cursor.x.saturating_sub(1);
        }
    }

    /// Goes one column right; from the end of any line but the last, to
    /// column 0 of the line below.
    pub fn move_right(&mut self)
        requires
            old(self).wf(),
        ensures
            final(self)@ == old(self)@.right(),
            final(self).wf(),
    {
        if self.buffer.lines.is_empty() {
            return ;
        }
        let i = self.line_index();
        let len = self.buffer.lines[i].as_str().unicode_len();
        if self.cursor.x as usize == len && i + 1 != self.buffer.lines.len() {
            if self.cursor.y >= self.terminal.height.saturating_sub(3) {
                self.offset = self.offset + 1;
            } else {
                self.cursor.y = self.cursor.y + 1;
            }
            self.cursor.x = 0;
        } else if self.cursor.x < self.terminal.width.saturating_sub(1) {
            self.cursor.x = self.cursor.x + 1;
            self.correct_line();
        }
    }

    /// Goes one line up: by row, or by scrolling when the cursor is on row 0.
    pub fn move_up(&mut self)
        requires
            old(self).wf(),
        ensures
            final(self)@ == old(self)@.up(),
            final(self).wf(),
    {
        if self.cursor.y != 0 {
            self.cursor.y = self.cursor.y - 1;
        } else {
            self.offset = self.offset.saturating_sub(1);
        }
        self.correct_line();
    }

    /// Goes one line down if the buffer has one: by row, or by scrolling
    /// when the cursor is on the last usable row.
    pub fn move_down(&mut self)
        requires
            old(self).wf(),
        ensures
            final(self)@ == old(self)@.down(),
            final(self).wf(),
    {
        let proposed = self.cursor.y as u64 + self.offset + 1;
        if proposed < self.buffer.lines.len() as u64 {
            if self.cursor.y < self.terminal.height.saturating_sub(3) {
                self.cursor.y = self.cursor.y + 1;
            } else {
                self.offset = self.offset + 1;
            }
            self.correct_line();
        }
    }

    /// Jumps to the top row of the viewport.
    pub fn page_up(&mut self)
        requires
            old(self).wf(),
        ensures
            final(self)@ == old(self)@.page_up(),
            final(self).wf(),
    {
        self.cursor.y = 0;
        self.correct_line();
    }

    /// Jumps to the last usable row of the viewport, or to the row numbered
    /// like the buffer's last line if that is less. The row must address a
    /// line at the present offset: `accepts` tells.
    pub fn page_down(&mut self)
        requires
            old(self).wf(),
            old(self)@.page_down_fits(),
        ensures
            final(self)@ == old(self)@.page_down(),
            final(self).wf(),
    {
        let bottom = self.terminal.height.saturating_sub(3);
        let last = self.buffer.lines.len().saturating_sub(1);
        if bottom as usize <= last {
            self.cursor.y = bottom;
        } else {
            self.cursor.y = last as u16;
        }
        self.correct_line();
    }

    /// Goes to the start of the line.
    pub fn home(&mut self)
        ensures
            final(self)@ == old(self)@.home(),
            old(self).wf() ==> final(self).wf(),
    {
        self.cursor.x = 0;
    }

    /// Goes to the end of the line, no further right than the terminal's
    /// last column.
    pub fn end(&mut self)
        requires
            old(self).wf(),
        ensures
            final(self)@ == old(self)@.end(),
            final(self).wf(),
    {
        self.cursor.x = self.terminal.width.saturating_sub(1);
        self.correct_line();
    }

    /// Raises the exit flag.
    pub fn quit(&mut self)
        ensures
            final(self)@ == old(self)@.quit(),
            old(self).wf() ==> final(self).wf(),
    {
        self.kill = true;
    }

    /// Takes over the terminal's present size.
    pub fn resize(&mut self, terminal: Terminal)
        ensures
            final(self)@ == old(self)@.resize(terminal.width as int, terminal.height as int),
            old(self).wf() ==> final(self).wf(),
    {
        self.terminal = terminal;
    }

    /// Whether `key` can be dispatched now: every key can, but a page down
    /// whose target row would address no line of the buffer.
    pub fn accepts(&self, key: Key) -> (yes: bool)
        ensures
            yes == self@.accepts(key),
    {
        match key {
            Key::PageDown => {
                let count = self.buffer.lines.len();
                if count == 0 {
                    true
                } else {
                    let bottom = self.terminal.height.saturating_sub(3) as usize;
                    let row = if bottom <= count - 1 {
                        bottom
                    } else {
                        count - 1
                    };
                    match (row as u64).checked_add(self.offset) {
                        Some(index) => index < count as u64,
                        None => false,
                    }
                }
            },
            _ => true,
        }
    }

    /// Changes the editor as `key` asks. A key that is not bound changes
    /// nothing.
    pub fn dispatch(&mut self, key: Key)
        requires
            old(self).wf(),
            old(self)@.accepts(key),
        ensures
            final(self)@ == old(self)@.apply(key),
            final(self).wf(),
    {
        match key {
            Key::Ctrl(c) => {
                if c == 'q' {
                    self.quit();
                }
            },
            Key::Left => self.move_left(),
            Key::Right => self.move_right(),
            Key::Up => self.move_up(),
            Key::Down => self.move_down(),
            Key::PageUp => self.page_up(),
            Key::PageDown => self.page_down(),
            Key::Home => self.home(),
            Key::End => self.end(),
            Key::Char(c) => self.insert(c),
            Key::Backspace => self.delete(),
            _ => {},
        }
    }

    /// Whether `input` can be handed to `step` now.
    pub fn admits(&self, input: Input) -> (yes: bool)
        ensures
            yes == self@.admits(input),
    {
        match input {
            Input::Key(key) => self.kill || self.accepts(key),
            Input::Idle(_) => true,
        }
    }

    /// Takes what one poll of the key source gave and says what the loop
    /// does next. A key is dispatched; an idle poll brings the terminal's
    /// size up to date. Once the exit flag is up, nothing changes and the
    /// answer is `Exit`.
    pub fn step(&mut self, input: Input) -> (action: Action)
        requires
            old(self).wf(),
            old(self)@.admits(input),
        ensures
            final(self)@ == old(self)@.step(input),
            action == old(self)@.action(input),
            final(self).wf(),
    {
        if self.kill {
            return Action::Exit;
        }
        match input {
            Input::Key(key) => {
                self.dispatch(key);
                if self.kill {
                    Action::Exit
                } else {
                    Action::Render
                }
            },
            Input::Idle(size) => {
                self.resize(size);
                Action::Pause(IDLE_PAUSE_MS)
            },
        }
    }

    /// Takes the inputs in order, as `step` does one by one, and stops
    /// before the first that finds the exit flag up or that cannot be handed
    /// over. Returns what the loop was told after each input taken.
    pub fn run(&mut self, inputs: &Vec<Input>) -> (actions: Vec<Action>)
        requires
            old(self).wf(),
        ensures
            actions@.len() <= inputs@.len(),
            final(self)@ == old(self)@.run(inputs@.take(actions@.len() as int)),
            final(self).wf(),
            forall|i: int|
                0 <= i < actions@.len() ==> {
                    let before = #[trigger] old(self)@.run(inputs@.take(i));
                    &&& !before.kill
                    &&& before.admits(inputs@[i])
                    &&& actions@[i] == before.action(inputs@[i])
                },
            actions@.len() < inputs@.len() ==> final(self)@.kill || !final(self)@.admits(
                inputs@[actions@.len() as int],
            ),
    {
        let mut actions: Vec<Action> = Vec::new();
        let mut taken: usize = 0;
        while taken < inputs.len() && !self.kill && self.admits(inputs[taken])
            invariant
                taken <= inputs@.len(),
                actions@.len() == taken,
                self.wf(),
                self@ == old(self)@.run(inputs@.take(taken as int)),
                forall|i: int|
                    0 <= i < taken ==> {
                        let before = #[trigger] old(self)@.run(inputs@.take(i));
                        &&& !before.kill
                        &&& before.admits(inputs@[i])
                        &&& actions@[i] == before.action(inputs@[i])
                    },
            decreases inputs@.len() - taken,
        {
            let action = self.step(inputs[taken]);
            actions.push(action);
            proof {
                assert(inputs@.take(taken + 1).drop_last() =~= inputs@.take(taken as int));
            }
            taken = taken + 1;
        }
        actions
    }

    /// The frame for the present state: one string for each row of the
    /// terminal.
    pub fn rows(&self) -> (rows: Vec<String>)
        ensures
            rows@.len() == self@.height,
            line_views(rows@) == frame(self@),
    {
        let width = self.terminal.width;
        let height = self.terminal.height;
        let third = height / 3;
        let empty = self.buffer.lines.is_empty();
        let mut rows: Vec<String> = Vec::new();
        let mut row: u16 = 0;
        while row < height
            invariant
                row <= height,
                width == self.terminal.width,
                height == self.terminal.height,
                third == height / 3,
                empty == self@.is_empty(),
                rows@.len() == row,
                forall|r: int| 0 <= r < row ==> (#[trigger] rows@[r])@ == row_text(self@, r),
            decreases height - row,
        {
            let text = if row == height - 1 {
                self.command_bar.clone()
            } else if height >= 2 && row == height - 2 {
                status(width, self.cursor.x, self.cursor.y)
            } else if empty && row == third {
                let mut title = String::from_str(TITLE);
                title.append(VERSION);
                banner(width, title.as_str())
            } else if empty && row == third + 2 {
                banner(width, SUBTITLE)
            } else if empty && row == third + 3 {
                banner(width, ATTRIBUTION)
            } else if empty && row == third + 5 {
                hint(width)
            } else {
                self.line_at(row)
            };
            rows.push(text);
            row = row + 1;
        }
        rows
    }

    /// What a row shows that is neither command line, status line nor
    /// banner: the buffer line that the offset puts there, or the
    /// placeholder.
    fn line_at(&self, row: u16) -> (text: String)
        ensures
            text@ == if row + self@.offset < self@.lines.len() {
                self@.lines[row + self@.offset]
            } else {
                PLACEHOLDER@
            },
    {
        let count = self.buffer.lines.len();
        match self.offset.checked_add(row as u64) {
            Some(index) => {
                if index < count as u64 {
                    self.buffer.lines[index as usize].clone()
                } else {
                    String::from_str(PLACEHOLDER)
                }
            },
            None => String::from_str(PLACEHOLDER),
        }
    }

    /// The frame as one text, ready to be written to a cleared terminal: the
    /// rows of `rows`, parted by carriage return and line feed.
    pub fn render(&self) -> (text: String)
        ensures
            text@ == screen(self@),
    {
        let rows = self.rows();
        join(&rows, ROW_BREAK)
    }

    /// Where the cursor is.
    pub fn cursor(&self) -> (cursor: Cursor)
        ensures
            cursor.x == self@.x,
            cursor.y == self@.y,
    {
        self.cursor
    }

    /// The index of the buffer line shown in the top row.
    pub fn offset(&self) -> (offset: u64)
        ensures
            offset == self@.offset,
    {
        self.offset
    }

    /// The text being edited.
    pub fn buffer(&self) -> (buffer: &Buffer)
        ensures
            buffer@ == self@.lines,
    {
        &self.buffer
    }

    /// The terminal's size as the editor knows it.
    pub fn terminal(&self) -> (terminal: Terminal)
        ensures
            terminal.width == self@.width,
            terminal.height == self@.height,
    {
        self.terminal
    }

    /// Whether the exit flag is up.
    pub fn is_exiting(&self) -> (yes: bool)
        ensures
            yes == self@.kill,
    {
        self.kill
    }

    /// The text of the command line.
    pub fn command_bar(&self) -> (text: &String)
        ensures
            text@ == self@.command_bar,
    {
        &self.command_bar
    }
}

} // verus!
