//! The editor's state as a mathematical value, and each transition as a
//! function on it. The executable editor is specified against this model.

use vstd::prelude::*;
use crate::event::{Action, Input, Key, IDLE_PAUSE_MS};

verus! {

/// What the command line says when the editor opens.
pub const GREETING: &'static str = "Welcome to Ox!";

/// `n - 1`, stopping at zero.
pub open spec fn sat_dec(n: int) -> int {
    if n > 0 {
        n - 1
    } else {
        0
    }
}

/// The smaller of two integers.
pub open spec fn least(a: int, b: int) -> int {
    if a <= b {
        a
    } else {
        b
    }
}

/// The last viewport row that shows text: the two rows below it hold the
/// status line and the command line, and one more is kept free.
pub open spec fn usable_rows(height: int) -> int {
    if height >= 3 {
        height - 3
    } else {
        0
    }
}

/// Everything the editor knows, with unbounded integers and sequences.
pub struct State {
    /// Cursor column, counted in characters from the start of the line.
    pub x: int,
    /// Cursor row, counted from the top of the viewport.
    pub y: int,
    /// Index of the buffer line shown in viewport row 0.
    pub offset: int,
    /// The buffer, line by line.
    pub lines: Seq<Seq<char>>,
    /// Terminal width in cells.
    pub width: int,
    /// Terminal height in cells.
    pub height: int,
    /// Set once the quit key was seen.
    pub kill: bool,
    /// The text of the command line.
    pub command_bar: Seq<char>,
}

impl State {
    /// The state of an editor that was just opened on `lines`.
    pub open spec fn initial(lines: Seq<Seq<char>>, width: int, height: int) -> State {
        State {
            x: 0,
            y: 0,
            offset: 0,
            lines,
            width,
            height,
            kill: false,
            command_bar: GREETING@,
        }
    }

    /// Every number fits the machine type that holds it.
    pub open spec fn in_range(self) -> bool {
        &&& 0 <= self.x <= u16::MAX
        &&& 0 <= self.y <= u16::MAX
        &&& 0 <= self.offset <= u64::MAX
        &&& 0 <= self.width <= u16::MAX
        &&& 0 <= self.height <= u16::MAX
        &&& self.lines.len() <= usize::MAX
    }

    pub open spec fn is_empty(self) -> bool {
        self.lines.len() == 0
    }

    /// The buffer line the cursor is on.
    pub open spec fn index(self) -> int {
        self.y + self.offset
    }

    /// The text of the line the cursor is on.
    pub open spec fn current(self) -> Seq<char> {
        self.lines[self.index()]
    }

    pub open spec fn margin(self) -> int {
        usable_rows(self.height)
    }

    /// The cursor addresses a line of the buffer; with an empty buffer row
    /// and offset are both zero.
    pub open spec fn index_valid(self) -> bool {
        if self.is_empty() {
            self.y == 0 && self.offset == 0
        } else {
            self.index() < self.lines.len()
        }
    }

    /// The column is not past the end of the addressed line; with an empty
    /// buffer it is zero.
    pub open spec fn column_valid(self) -> bool {
        if self.is_empty() {
            self.x == 0
        } else {
            self.x <= self.current().len()
        }
    }

    /// The invariant of the editor.
    pub open spec fn wf(self) -> bool {
        &&& self.in_range()
        &&& self.index_valid()
        &&& self.column_valid()
    }

    /// The cursor row is one of the rows that show text.
    pub open spec fn row_in_viewport(self) -> bool {
        self.y <= self.margin()
    }

    /// Nothing is scrolled further than the usable rows can follow: either
    /// the offset is zero, or the last usable row still addresses a line.
    pub open spec fn scroll_valid(self) -> bool {
        self.offset == 0 || self.margin() + self.offset < self.lines.len()
    }

    /// The terminal has the given size.
    pub open spec fn has_size(self, width: int, height: int) -> bool {
        self.width == width && self.height == height
    }

    /// Pulls the column back to the end of the addressed line.
    pub open spec fn clamp(self) -> State {
        if self.is_empty() {
            State { x: 0, ..self }
        } else {
            State { x: least(self.x, self.current().len() as int), ..self }
        }
    }

    /// At column 0 of any line but the first, goes to the end of the line
    /// above (no further right than the terminal is wide), scrolling when the
    /// cursor is on row 0. Anywhere else, goes one column left.
    pub open spec fn left(self) -> State {
        if self.x == 0 && self.index() != 0 {
            State {
                x: self.width,
                y: sat_dec(self.y),
                offset: if self.y == 0 {
                    sat_dec(self.offset)
                } else {
                    self.offset
                },
                ..self
            }.clamp()
        } else {
            State { x: sat_dec(self.x), ..self }
        }
    }

    /// At the end of any line but the last, goes to column 0 of the line
    /// below, scrolling when the cursor is on the last usable row. Anywhere
    /// else, goes one column right unless the terminal's width forbids it.
    pub open spec fn right(self) -> State {
        if self.is_empty() {
            self
        } else if self.x == self.current().len() && self.index() + 1 != self.lines.len() {
            if self.y >= self.margin() {
                State { x: 0, offset: self.offset + 1, ..self }
            } else {
                State { x: 0, y: self.y + 1, ..self }
            }
        } else if self.x < sat_dec(self.width) {
            State { x: self.x + 1, ..self }.clamp()
        } else {
            self
        }
    }

    /// Goes one row up, or scrolls one line up when the cursor is on row 0.
    pub open spec fn up(self) -> State {
        if self.y > 0 {
            State { y: self.y - 1, ..self }.clamp()
        } else {
            State { offset: sat_dec(self.offset), ..self }.clamp()
        }
    }

    /// Goes one line down if the buffer has one: by row while the cursor is
    /// above the last usable row, by scrolling from there on.
    pub open spec fn down(self) -> State {
        if self.index() + 1 < self.lines.len() {
            if self.y < self.margin() {
                State { y: self.y + 1, ..self }.clamp()
            } else {
                State { offset: self.offset + 1, ..self }.clamp()
            }
        } else {
            self
        }
    }

    /// Jumps to row 0.
    pub open spec fn page_up(self) -> State {
        State { y: 0, ..self }.clamp()
    }

    /// The row that a page down jumps to.
    pub open spec fn page_down_row(self) -> int {
        least(self.margin(), sat_dec(self.lines.len() as int))
    }

    /// Whether the row that a page down jumps to, at the present offset,
    /// still addresses a line of the buffer.
    pub open spec fn page_down_fits(self) -> bool {
        self.is_empty() || self.page_down_row() + self.offset < self.lines.len()
    }

    /// Jumps to the last usable row, or to the row numbered like the last
    /// line of the buffer if that is less.
    pub open spec fn page_down(self) -> State {
        State { y: self.page_down_row(), ..self }.clamp()
    }

    /// Goes to column 0.
    pub open spec fn home(self) -> State {
        State { x: 0, ..self }
    }

    /// Goes to the end of the line, no further right than the last column of
    /// the terminal.
    pub open spec fn end(self) -> State {
        State { x: sat_dec(self.width), ..self }.clamp()
    }

    /// Appends `c` to the addressed line, wherever in it the cursor is, and
    /// moves the cursor one column right. Nothing happens on an empty buffer.
    pub open spec fn insert(self, c: char) -> State {
        if self.is_empty() {
            self
        } else {
            State {
                x: least(self.x + 1, u16::MAX as int),
                lines: self.lines.update(self.index(), self.current().push(c)),
                ..self
            }
        }
    }

    /// What is left of `line` when the cursor has stepped back to `col`: the
    /// characters up to and including the one at `col - 1` (at `col == 0` the
    /// bound stops at zero, so the first character is kept), then those from
    /// `col + 1` on. Both bounds are cut to the line's length.
    pub open spec fn line_without(line: Seq<char>, col: int) -> Seq<char> {
        let keep = least(sat_dec(col) + 1, line.len() as int);
        let resume = least(col + 1, line.len() as int);
        line.take(keep) + line.skip(resume)
    }

    /// Steps one column back and drops the character stepped over, except
    /// from column 1, where only the cursor moves. Nothing happens at column
    /// 0 or on an empty buffer.
    pub open spec fn delete(self) -> State {
        if self.x == 0 || self.is_empty() {
            self
        } else {
            State {
                x: self.x - 1,
                lines: self.lines.update(
                    self.index(),
                    Self::line_without(self.current(), self.x - 1),
                ),
                ..self
            }
        }
    }

    /// Raises the exit flag.
    pub open spec fn quit(self) -> State {
        State { kill: true, ..self }
    }

    /// Takes over the terminal's present size.
    pub open spec fn resize(self, width: int, height: int) -> State {
        State { width, height, ..self }
    }

    /// Whether `key` can be dispatched in this state. Every key can, but a
    /// page down whose target row would address no line.
    pub open spec fn accepts(self, key: Key) -> bool {
        key == Key::PageDown ==> self.page_down_fits()
    }

    /// The state after `key`. Keys that are not bound change nothing.
    pub open spec fn apply(self, key: Key) -> State {
        match key {
            Key::Ctrl(c) => if c == 'q' {
                self.quit()
            } else {
                self
            },
            Key::Left => self.left(),
            Key::Right => self.right(),
            Key::Up => self.up(),
            Key::Down => self.down(),
            Key::PageUp => self.page_up(),
            Key::PageDown => self.page_down(),
            Key::Home => self.home(),
            Key::End => self.end(),
            Key::Char(c) => self.insert(c),
            Key::Backspace => self.delete(),
            _ => self,
        }
    }

    /// Whether `input` can be handed to the editor in this state.
    pub open spec fn admits(self, input: Input) -> bool {
        match input {
            Input::Key(key) => self.kill || self.accepts(key),
            Input::Idle(_) => true,
        }
    }

    /// The state after one poll of the key source. Once the exit flag is up
    /// nothing changes any more.
    pub open spec fn step(self, input: Input) -> State {
        if self.kill {
            self
        } else {
            match input {
                Input::Key(key) => self.apply(key),
                Input::Idle(size) => self.resize(size.width as int, size.height as int),
            }
        }
    }

    /// The state after a whole sequence of polls, taken in order.
    pub open spec fn run(self, inputs: Seq<Input>) -> State
        decreases inputs.len(),
    {
        if inputs.len() == 0 {
            self
        } else {
            self.run(inputs.drop_last()).step(inputs.last())
        }
    }

    /// Whether each input of the sequence can be handed over in the state
    /// that the inputs before it lead to.
    pub open spec fn admits_all(self, inputs: Seq<Input>) -> bool {
        forall|i: int| 0 <= i < inputs.len() ==> #[trigger] self.run(inputs.take(i)).admits(inputs[i])
    }

    /// What the loop is told to do after `input`.
    pub open spec fn action(self, input: Input) -> Action {
        if self.step(input).kill {
            Action::Exit
        } else {
            match input {
                Input::Key(_) => Action::Render,
                Input::Idle(_) => Action::Pause(IDLE_PAUSE_MS),
            }
        }
    }
}

} // verus!
