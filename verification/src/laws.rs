//! What holds of the editor's transitions and of its frame, proved over the
//! model.

use vstd::prelude::*;
use crate::event::{Action, Input, Key};
use crate::frame::{frame, status_row, PLACEHOLDER};
use crate::model::{least, sat_dec, State};

verus! {

/// A key that can be dispatched leaves the cursor on a line of the buffer:
/// row plus offset stays a valid line index, and stays zero while the buffer
/// is empty.
pub proof fn lemma_key_keeps_index_valid(s: State, key: Key)
    requires
        s.in_range(),
        s.index_valid(),
        s.accepts(key),
    ensures
        s.apply(key).index_valid(),
        !s.is_empty() ==> 0 <= s.apply(key).y + s.apply(key).offset < s.apply(key).lines.len(),
{
}

/// A key that can be dispatched leaves the column within the line that the
/// cursor is then on: at most the line's length, and zero while the buffer is
/// empty.
pub proof fn lemma_key_keeps_column_valid(s: State, key: Key)
    requires
        s.wf(),
        s.accepts(key),
    ensures
        s.apply(key).column_valid(),
        !s.is_empty() ==> s.apply(key).x <= s.apply(key).current().len(),
        s.is_empty() ==> s.apply(key).x == 0,
{
}

/// A key that can be dispatched keeps the editor's invariant. No key adds or
/// removes a line.
pub proof fn lemma_key_keeps_wf(s: State, key: Key)
    requires
        s.wf(),
        s.accepts(key),
    ensures
        s.apply(key).wf(),
        s.apply(key).lines.len() == s.lines.len(),
{
}

/// One poll keeps the editor's invariant, whatever it brought.
pub proof fn lemma_step_keeps_wf(s: State, input: Input)
    requires
        s.wf(),
        s.admits(input),
    ensures
        s.step(input).wf(),
        s.step(input).lines.len() == s.lines.len(),
{
    if !s.kill {
        match input {
            Input::Key(key) => lemma_key_keeps_wf(s, key),
            Input::Idle(_) => {},
        }
    }
}

/// Any sequence of polls keeps the editor's invariant, provided that each
/// input can be handed over when its turn comes.
pub proof fn lemma_run_keeps_wf(s: State, inputs: Seq<Input>)
    requires
        s.wf(),
        s.admits_all(inputs),
    ensures
        s.run(inputs).wf(),
        s.run(inputs).lines.len() == s.lines.len(),
    decreases inputs.len(),
{
    if inputs.len() > 0 {
        let before = inputs.drop_last();
        assert forall|i: int| 0 <= i < before.len() implies #[trigger] s.run(before.take(i)).admits(
            before[i],
        ) by {
            assert(before.take(i) =~= inputs.take(i));
        }
        lemma_run_keeps_wf(s, before);
        lemma_step_keeps_wf(s.run(before), inputs.last());
    }
}

/// Every state that an editor can reach from the moment it is opened
/// satisfies the invariant: the column is within the addressed line, and row
/// plus offset is the index of a line, or all three are zero on an empty
/// buffer.
pub proof fn lemma_reachable_states_are_valid(
    lines: Seq<Seq<char>>,
    width: int,
    height: int,
    inputs: Seq<Input>,
)
    requires
        lines.len() <= usize::MAX,
        0 <= width <= u16::MAX,
        0 <= height <= u16::MAX,
        State::initial(lines, width, height).admits_all(inputs),
    ensures
        State::initial(lines, width, height).run(inputs).wf(),
{
    lemma_run_keeps_wf(State::initial(lines, width, height), inputs);
}

/// While the cursor row is within the usable rows and nothing is scrolled
/// further than they can follow, every key can be dispatched, and both stay
/// so after it. They hold when an editor is opened; only a change of the
/// terminal's size can end them.
pub proof fn lemma_key_is_accepted_at_fixed_size(s: State, key: Key)
    requires
        s.wf(),
        s.row_in_viewport(),
        s.scroll_valid(),
    ensures
        s.accepts(key),
        s.apply(key).row_in_viewport(),
        s.apply(key).scroll_valid(),
        s.apply(key).has_size(s.width, s.height),
{
}

/// Whether every idle poll among the inputs reports the given size.
pub open spec fn size_stays(inputs: Seq<Input>, width: int, height: int) -> bool {
    forall|i: int|
        0 <= i < inputs.len() ==> (#[trigger] inputs[i] matches Input::Idle(size) ==> size.width
            == width && size.height == height)
}

/// In a terminal that keeps its size, a valid editor whose cursor row is
/// within the usable rows, with nothing scrolled further than they can
/// follow, can be handed any sequence of inputs, and is so again after it.
pub proof fn lemma_run_at_fixed_size(s: State, inputs: Seq<Input>)
    requires
        s.wf(),
        s.row_in_viewport(),
        s.scroll_valid(),
        size_stays(inputs, s.width, s.height),
    ensures
        s.admits_all(inputs),
        s.run(inputs).wf(),
        s.run(inputs).row_in_viewport(),
        s.run(inputs).scroll_valid(),
        s.run(inputs).has_size(s.width, s.height),
    decreases inputs.len(),
{
    if inputs.len() > 0 {
        let before = inputs.drop_last();
        let last = inputs.last();
        lemma_run_at_fixed_size(s, before);
        let t = s.run(before);
        if !t.kill {
            match last {
                Input::Key(key) => {
                    lemma_key_is_accepted_at_fixed_size(t, key);
                    lemma_key_keeps_wf(t, key);
                },
                Input::Idle(_) => {},
            }
        }
        assert forall|i: int| 0 <= i < inputs.len() implies #[trigger] s.run(inputs.take(i)).admits(
            inputs[i],
        ) by {
            if i < before.len() {
                assert(inputs.take(i) =~= before.take(i));
                assert(s.run(before.take(i)).admits(before[i]));
            }
        }
    }
}

/// An editor in a terminal that never changes its size refuses no input:
/// from the moment it is opened, every sequence of keys and idle polls can
/// be handed over, and leads to a valid state.
pub proof fn lemma_fixed_terminal_refuses_nothing(
    lines: Seq<Seq<char>>,
    width: int,
    height: int,
    inputs: Seq<Input>,
)
    requires
        lines.len() <= usize::MAX,
        0 <= width <= u16::MAX,
        0 <= height <= u16::MAX,
        size_stays(inputs, width, height),
    ensures
        State::initial(lines, width, height).admits_all(inputs),
        State::initial(lines, width, height).run(inputs).wf(),
{
    lemma_run_at_fixed_size(State::initial(lines, width, height), inputs);
}

/// Only the quit key raises the exit flag, and it always does.
pub proof fn lemma_only_quit_raises_exit(s: State, key: Key)
    requires
        !s.kill,
    ensures
        s.apply(key).kill <==> key == Key::Ctrl('q'),
{
}

/// Once the exit flag is up nothing changes any more, whatever is handed
/// over, and the loop is told to stop each time.
pub proof fn lemma_nothing_follows_exit(s: State, inputs: Seq<Input>)
    requires
        s.kill,
    ensures
        s.run(inputs) == s,
        s.admits_all(inputs),
        forall|i: int| 0 <= i < inputs.len() ==> s.action(#[trigger] inputs[i]) == Action::Exit,
    decreases inputs.len(),
{
    if inputs.len() > 0 {
        lemma_nothing_follows_exit(s, inputs.drop_last());
    }
    assert forall|i: int| 0 <= i < inputs.len() implies #[trigger] s.run(inputs.take(i)).admits(
        inputs[i],
    ) by {
        lemma_nothing_follows_exit(s, inputs.take(i));
    }
}

/// A cursor row within the usable rows stays there under every key, as long
/// as the terminal keeps its size.
pub proof fn lemma_key_keeps_row_in_viewport(s: State, key: Key)
    requires
        s.wf(),
        s.row_in_viewport(),
    ensures
        s.apply(key).row_in_viewport(),
        s.height >= 1 ==> s.apply(key).y < s.height,
{
}

/// No key changes both the row and the offset.
pub proof fn lemma_key_moves_row_or_offset(s: State, key: Key)
    requires
        s.wf(),
    ensures
        s.apply(key).y == s.y || s.apply(key).offset == s.offset,
{
}

/// Right, then left, from a column strictly inside a line: the editor is
/// back where it was exactly if the column was left of the terminal's last
/// column. From the last column on, right does nothing and left still moves.
pub proof fn lemma_right_then_left(s: State)
    requires
        s.wf(),
        !s.is_empty(),
        0 < s.x < s.current().len(),
    ensures
        s.x < sat_dec(s.width) ==> s.right().left() == s,
        s.x >= sat_dec(s.width) ==> s.right().left().x == s.x - 1,
        s.right().left().y == s.y,
        s.right().left().offset == s.offset,
{
}

/// With `c` appended to `line`, the characters from `from` on each equal
/// their right neighbour; so each of them is `c`.
proof fn lemma_shifted_tail_is_constant(line: Seq<char>, c: char, from: int, j: int)
    requires
        0 <= from <= j < line.len(),
        forall|k: int| from <= k < line.len() ==> line[k] == #[trigger] line.push(c)[k + 1],
    ensures
        line[j] == c,
    decreases line.len() - j,
{
    if j + 1 < line.len() {
        lemma_shifted_tail_is_constant(line, c, from, j + 1);
        assert(line[j] == line.push(c)[j + 1]);
    } else {
        assert(line[j] == line.push(c)[j + 1]);
    }
}

/// Insert, then one backward delete, from a column of at least 1. The
/// inserted character goes to the end of the line and the deleted one is the
/// one at the cursor, so the line is as it was before exactly if every
/// character from the cursor to the end of the line equals the inserted one;
/// with the cursor at the end of the line that is always so. The other lines
/// are never touched, and the cursor returns to its column (to the one
/// before it, from the largest column there is).
pub proof fn lemma_insert_then_delete(s: State, c: char)
    requires
        s.wf(),
        !s.is_empty(),
        s.x >= 1,
    ensures
        ({
            let t = s.insert(c).delete();
            let at = least(s.x + 1, u16::MAX as int) - 1;
            &&& t.lines.len() == s.lines.len()
            &&& t.y == s.y && t.offset == s.offset && t.x == at
            &&& forall|i: int| 0 <= i < s.lines.len() && i != s.index() ==> t.lines[i] == s.lines[i]
            &&& t.current() == s.current() <==> forall|j: int|
                at <= j < s.current().len() ==> s.current()[j] == c
            &&& s.x == s.current().len() && s.x < u16::MAX ==> t.lines == s.lines
        }),
{
    let line = s.current();
    let longer = line.push(c);
    let at = least(s.x + 1, u16::MAX as int) - 1;
    let rest = longer.take(at) + longer.skip(at + 1);
    if forall|j: int| at <= j < line.len() ==> line[j] == c {
        assert(rest =~= line);
    }
    if rest == line {
        assert forall|k: int| at <= k < line.len() implies line[k] == #[trigger] longer[k + 1] by {
            assert(rest[k] == longer[k + 1]);
        }
        assert forall|j: int| at <= j < line.len() implies line[j] == c by {
            lemma_shifted_tail_is_constant(line, c, at, j);
        }
    }
}

/// The frame has one row for each row of the terminal. Its last row is
/// always the command line and the row above that always the status line;
/// with text in the buffer, every row above those shows the buffer line that
/// the offset puts there, or the placeholder where the buffer has ended.
pub proof fn lemma_frame_rows(s: State)
    requires
        s.in_range(),
    ensures
        frame(s).len() == s.height,
        s.height >= 1 ==> frame(s)[s.height - 1] == s.command_bar,
        s.height >= 2 ==> frame(s)[s.height - 2] == status_row(s.width, s.x, s.y),
        forall|row: int|
            0 <= row < s.height - 2 && !s.is_empty() ==> #[trigger] frame(s)[row] == if row
                + s.offset < s.lines.len() {
                s.lines[row + s.offset]
            } else {
                PLACEHOLDER@
            },
{
}

/// On an empty buffer no key moves the cursor or scrolls: column, row and
/// offset stay zero, and the buffer stays empty.
pub proof fn lemma_empty_buffer_is_stable(s: State, key: Key)
    requires
        s.wf(),
        s.is_empty(),
    ensures
        s.accepts(key),
        s.apply(key).x == 0,
        s.apply(key).y == 0,
        s.apply(key).offset == 0,
        s.apply(key).is_empty(),
{
}

} // verus!
