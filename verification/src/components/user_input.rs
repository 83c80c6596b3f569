//! A single-line text field: a buffer, a cursor counted in characters, and
//! the value that `submit_message` commits.

use crate::components::area_util::Position;
use crate::components::area_util::Rect;
use crate::key::KeyCode;
use crate::key::KeyEvent;
use crate::text::byte_index_of;
use crate::text::byte_offset;
use crate::text::insert_char;
use crate::text::remove_char;
use vstd::prelude::*;
use vstd::string::StrSliceExecFns;

verus! {

/// What a field is for, with its label and the value committed last.
#[derive(Debug, Clone, PartialEq, Eq)]
pub enum InputData {
    UserName { label: Option<String>, data: Option<String> },
    Password { label: Option<String>, data: Option<String> },
    ChatMsg { label: Option<String>, data: Option<String> },
    Search { label: Option<String>, data: Option<String> },
}

/// An `InputData` with its texts as sequences of characters.
pub enum InputDataView {
    UserName { label: Option<Seq<char>>, data: Option<Seq<char>> },
    Password { label: Option<Seq<char>>, data: Option<Seq<char>> },
    ChatMsg { label: Option<Seq<char>>, data: Option<Seq<char>> },
    Search { label: Option<Seq<char>>, data: Option<Seq<char>> },
}

impl InputDataView {
    /// The committed value.
    pub open spec fn data(self) -> Option<Seq<char>> {
        match self {
            InputDataView::UserName { data, .. } => data,
            InputDataView::Password { data, .. } => data,
            InputDataView::ChatMsg { data, .. } => data,
            InputDataView::Search { data, .. } => data,
        }
    }

    /// The label, empty where there is none.
    pub open spec fn label(self) -> Seq<char> {
        let label = match self {
            InputDataView::UserName { label, .. } => label,
            InputDataView::Password { label, .. } => label,
            InputDataView::ChatMsg { label, .. } => label,
            InputDataView::Search { label, .. } => label,
        };
        match label {
            Some(text) => text,
            None => Seq::empty(),
        }
    }

    /// The same tag and label with `data` as the committed value.
    pub open spec fn with_data(self, data: Option<Seq<char>>) -> InputDataView {
        match self {
            InputDataView::UserName { label, .. } => InputDataView::UserName { label, data },
            InputDataView::Password { label, .. } => InputDataView::Password { label, data },
            InputDataView::ChatMsg { label, .. } => InputDataView::ChatMsg { label, data },
            InputDataView::Search { label, .. } => InputDataView::Search { label, data },
        }
    }
}

impl View for InputData {
    type V = InputDataView;

    open spec fn view(&self) -> InputDataView {
        match self {
            InputData::UserName { label, data } => InputDataView::UserName {
                label: label.deep_view(),
                data: data.deep_view(),
            },
            InputData::Password { label, data } => InputDataView::Password {
                label: label.deep_view(),
                data: data.deep_view(),
            },
            InputData::ChatMsg { label, data } => InputDataView::ChatMsg {
                label: label.deep_view(),
                data: data.deep_view(),
            },
            InputData::Search { label, data } => InputDataView::Search {
                label: label.deep_view(),
                data: data.deep_view(),
            },
        }
    }
}

impl InputData {
    /// Replaces the committed value.
    pub fn set_input(&mut self, input_data: Option<String>)
        ensures
            final(self)@ == old(self)@.with_data(input_data.deep_view()),
    {
        match self {
            InputData::UserName { label: _, data } => {
                *data = input_data;
            },
            InputData::Password { label: _, data } => {
                *data = input_data;
            },
            InputData::ChatMsg { label: _, data } => {
                *data = input_data;
            },
            InputData::Search { label: _, data } => {
                *data = input_data;
            },
        }
    }

    /// Forgets the committed value.
    pub fn reset_input(&mut self)
        ensures
            final(self)@ == old(self)@.with_data(None),
    {
        self.set_input(None);
    }

    /// The committed value.
    pub fn get_input_data(&self) -> (data: Option<String>)
        ensures
            data.deep_view() == self@.data(),
    {
        match self {
            InputData::UserName { label: _, data } => data.clone(),
            InputData::Password { label: _, data } => data.clone(),
            InputData::ChatMsg { label: _, data } => data.clone(),
            InputData::Search { label: _, data } => data.clone(),
        }
    }

    /// The label, empty where there is none.
    pub fn label(&self) -> (text: String)
        ensures
            text@ == self@.label(),
    {
        let label = match self {
            InputData::UserName { label, data: _ } => label,
            InputData::Password { label, data: _ } => label,
            InputData::ChatMsg { label, data: _ } => label,
            InputData::Search { label, data: _ } => label,
        };
        match label {
            Some(text) => text.clone(),
            None => String::new(),
        }
    }
}

/// The text field.
#[derive(Debug, Clone, PartialEq, Eq)]
pub struct UserInput {
    /// The buffer. `None` is a field that was never typed into, which is not
    /// the same as an empty buffer.
    pub input: Option<String>,
    /// The tag, the label and the committed value.
    pub input_data: InputData,
    /// The cursor, counted in characters from the start of the buffer.
    pub character_index: usize,
    /// Where the terminal cursor belongs, once a region was given.
    pub cursor_position: Option<Position>,
    /// Whether the field takes key presses.
    pub is_editing: bool,
}

/// A `UserInput` with its texts as sequences of characters.
pub struct UserInputView {
    pub input: Option<Seq<char>>,
    pub input_data: InputDataView,
    pub character_index: nat,
    pub cursor_position: Option<Position>,
    pub is_editing: bool,
}

impl View for UserInput {
    type V = UserInputView;

    open spec fn view(&self) -> UserInputView {
        UserInputView {
            input: self.input.deep_view(),
            input_data: self.input_data@,
            character_index: self.character_index as nat,
            cursor_position: self.cursor_position,
            is_editing: self.is_editing,
        }
    }
}

/// One step of editing.
pub enum EditOp {
    Left,
    Right,
    Insert(char),
    Delete,
}

impl UserInputView {
    /// A fresh field for `input_data`: no buffer, cursor at 0, not editing.
    pub open spec fn fresh(input_data: InputDataView) -> UserInputView {
        UserInputView {
            input: None,
            input_data,
            character_index: 0,
            cursor_position: None,
            is_editing: false,
        }
    }

    /// The characters of the buffer; none for a buffer never typed into.
    pub open spec fn content(self) -> Seq<char> {
        match self.input {
            Some(text) => text,
            None => Seq::empty(),
        }
    }

    /// `position`, held back to the length of the buffer.
    pub open spec fn clamp(self, position: nat) -> nat {
        if position > self.content().len() {
            self.content().len()
        } else {
            position
        }
    }

    /// Whether the cursor stands within the buffer or right behind it.
    pub open spec fn cursor_in_range(self) -> bool {
        self.character_index <= self.content().len()
    }

    pub open spec fn move_cursor_left(self) -> UserInputView {
        UserInputView {
            character_index: self.clamp(
                if self.character_index == 0 {
                    0
                } else {
                    (self.character_index - 1) as nat
                },
            ),
            ..self
        }
    }

    pub open spec fn move_cursor_right(self) -> UserInputView {
        UserInputView { character_index: self.clamp(self.character_index + 1), ..self }
    }

    /// `new_char` goes in at the cursor, or at the end where the cursor is
    /// behind it; the cursor moves one to the right.
    pub open spec fn enter_char(self, new_char: char) -> UserInputView {
        let at = self.clamp(self.character_index);
        UserInputView {
            input: Some(self.content().insert(at as int, new_char)),
            ..self
        }.move_cursor_right()
    }

    /// The character before the cursor leaves and the cursor moves one to the
    /// left; nothing happens at position 0.
    pub open spec fn delete_char(self) -> UserInputView {
        if self.character_index == 0 {
            self
        } else {
            let at = self.character_index - 1;
            UserInputView {
                input: Some(
                    if at < self.content().len() {
                        self.content().remove(at)
                    } else {
                        self.content()
                    },
                ),
                ..self
            }.move_cursor_left()
        }
    }

    /// The buffer becomes the committed value; the buffer stays.
    pub open spec fn submit_message(self) -> UserInputView {
        UserInputView { input_data: self.input_data.with_data(self.input), ..self }
    }

    /// Buffer, committed value and cursor go back to their initial state.
    pub open spec fn reset(self) -> UserInputView {
        UserInputView {
            input: None,
            input_data: self.input_data.with_data(None),
            character_index: 0,
            cursor_position: None,
            ..self
        }
    }

    /// Where the terminal cursor belongs for a field drawn in `area`: one
    /// column per character behind the left border, one row below the top
    /// border. `None` where that cell has no `u16` coordinates.
    pub open spec fn position_in(self, area: Rect) -> Option<Position> {
        if area.x + self.character_index + 1 <= u16::MAX && area.y + 1 <= u16::MAX {
            Some(
                Position {
                    x: (area.x + self.character_index + 1) as u16,
                    y: (area.y + 1) as u16,
                },
            )
        } else {
            None
        }
    }

    pub open spec fn set_cursor_position(self, area: Rect) -> UserInputView {
        UserInputView { cursor_position: self.position_in(area), ..self }
    }

    /// The cell that the host shows the terminal cursor at: the recorded one
    /// while editing, none otherwise.
    pub open spec fn visible_cursor(self) -> Option<Position> {
        if self.is_editing {
            self.cursor_position
        } else {
            None
        }
    }

    /// What a key press does to the field. A field that is not editing
    /// ignores every key.
    pub open spec fn handle_key_event(self, key: KeyEvent) -> UserInputView {
        if !self.is_editing {
            self
        } else {
            match key.code {
                KeyCode::Enter => self.submit_message(),
                KeyCode::Char(to_insert) => self.enter_char(to_insert),
                KeyCode::Backspace => self.delete_char(),
                KeyCode::Left => self.move_cursor_left(),
                KeyCode::Right => self.move_cursor_right(),
                KeyCode::Esc => UserInputView { is_editing: false, ..self },
                _ => self,
            }
        }
    }

    /// One step of editing.
    pub open spec fn apply(self, op: EditOp) -> UserInputView {
        match op {
            EditOp::Left => self.move_cursor_left(),
            EditOp::Right => self.move_cursor_right(),
            EditOp::Insert(c) => self.enter_char(c),
            EditOp::Delete => self.delete_char(),
        }
    }

    /// The steps of `ops`, one after the other.
    pub open spec fn apply_all(self, ops: Seq<EditOp>) -> UserInputView
        decreases ops.len(),
    {
        if ops.len() == 0 {
            self
        } else {
            self.apply_all(ops.drop_last()).apply(ops.last())
        }
    }
}

impl UserInput {
    /// A fresh field for `input_data`.
    pub fn new(input_data: InputData) -> (field: Self)
        ensures
            field@ == UserInputView::fresh(input_data@),
    {
        UserInput {
            input: None,
            input_data,
            character_index: 0,
            cursor_position: None,
            is_editing: false,
        }
    }

    /// The committed value.
    pub fn data(&self) -> (data: Option<String>)
        ensures
            data.deep_view() == self@.input_data.data(),
    {
        self.input_data.get_input_data()
    }

    /// The characters of the buffer as a string of their own.
    pub fn current_input(&self) -> (text: String)
        ensures
            text@ == self@.content(),
    {
        match &self.input {
            Some(text) => text.clone(),
            None => String::new(),
        }
    }

    /// How many characters the buffer holds.
    pub fn char_count(&self) -> (count: usize)
        ensures
            count == self@.content().len(),
    {
        match &self.input {
            Some(text) => text.as_str().unicode_len(),
            None => 0,
        }
    }

    /// `new_cursor_pos`, held back to the length of the buffer.
    pub fn clamp_cursor(&self, new_cursor_pos: usize) -> (position: usize)
        ensures
            position == self@.clamp(new_cursor_pos as nat),
    {
        let count = self.char_count();
        if new_cursor_pos > count {
            count
        } else {
            new_cursor_pos
        }
    }

    pub fn move_cursor_left(&mut self)
        ensures
            final(self)@ == old(self)@.move_cursor_left(),
            final(self)@.cursor_in_range(),
    {
        let cursor_moved_left = if self.character_index == 0 {
            0
        } else {
            self.character_index - 1
        };
        self.character_index = self.clamp_cursor(cursor_moved_left);
    }

    pub fn move_cursor_right(&mut self)
        ensures
            final(self)@ == old(self)@.move_cursor_right(),
            final(self)@.cursor_in_range(),
    {
        let count = self.char_count();
        if self.character_index < count {
            self.character_index = self.character_index + 1;
        } else {
            self.character_index = count;
        }
    }

    /// Puts `new_char` in at the cursor and moves the cursor behind it.
    pub fn enter_char(&mut self, new_char: char)
        ensures
            final(self)@ == old(self)@.enter_char(new_char),
            final(self)@.cursor_in_range(),
    {
        let text = self.current_input();
        let at = self.clamp_cursor(self.character_index);
        let longer = insert_char(text.as_str(), at, new_char);
        self.input = Some(longer);
        self.move_cursor_right();
    }

    /// Removes the character before the cursor and moves the cursor onto its
    /// place. At position 0 nothing happens.
    pub fn delete_char(&mut self)
        ensures
            final(self)@ == old(self)@.delete_char(),
            final(self)@.cursor_in_range(),
    {
        if self.character_index != 0 {
            let text = self.current_input();
            let shorter = remove_char(text.as_str(), self.character_index - 1);
            self.input = Some(shorter);
            self.move_cursor_left();
        }
    }

    /// Commits the buffer. The buffer itself stays as it is.
    pub fn submit_message(&mut self)
        ensures
            final(self)@ == old(self)@.submit_message(),
    {
        let committed = self.input.clone();
        self.input_data.set_input(committed);
    }

    /// Clears buffer, committed value and cursor.
    pub fn reset(&mut self)
        ensures
            final(self)@ == old(self)@.reset(),
            final(self)@.input is None,
            final(self)@.input_data.data() is None,
            final(self)@.character_index == 0,
            final(self)@.cursor_position is None,
    {
        self.input = None;
        self.input_data.reset_input();
        self.character_index = 0;
        self.cursor_position = None;
    }

    /// Records where the terminal cursor belongs for a field drawn in
    /// `input_area`.
    pub fn set_cursor_position(&mut self, input_area: Rect)
        ensures
            final(self)@ == old(self)@.set_cursor_position(input_area),
    {
        let room_x: u16 = u16::MAX - input_area.x;
        let fits_x = room_x >= 1 && self.character_index <= (room_x - 1) as usize;
        if fits_x && input_area.y < u16::MAX {
            let column: u16 = input_area.x + self.character_index as u16 + 1;
            self.cursor_position = Some(Position { x: column, y: input_area.y + 1 });
        } else {
            self.cursor_position = None;
        }
    }

    /// The byte position of the cursor in the buffer. The cursor counts
    /// characters, and a character may take several bytes.
    pub fn byte_index(&self) -> (index: usize)
        ensures
            index == byte_offset(self@.content(), self@.clamp(self@.character_index) as int),
    {
        match &self.input {
            Some(text) => byte_index_of(text.as_str(), self.character_index),
            None => {
                assert(Seq::<char>::empty().take(0) =~= Seq::<char>::empty());
                0
            },
        }
    }

    /// The cell that the host shows the terminal cursor at: the recorded one
    /// while editing, none otherwise.
    pub fn cursor(&self) -> (position: Option<Position>)
        ensures
            position == self@.visible_cursor(),
    {
        if self.is_editing {
            self.cursor_position
        } else {
            None
        }
    }

    /// Lets the field react to a key press: while editing, Enter commits,
    /// a character goes in at the cursor, Backspace deletes, the arrows move
    /// the cursor and Esc ends editing.
    pub fn handle_key_event(&mut self, key: KeyEvent)
        ensures
            final(self)@ == old(self)@.handle_key_event(key),
    {
        if self.is_editing {
            match key.code {
                KeyCode::Enter => self.submit_message(),
                KeyCode::Char(to_insert) => self.enter_char(to_insert),
                KeyCode::Backspace => self.delete_char(),
                KeyCode::Left => self.move_cursor_left(),
                KeyCode::Right => self.move_cursor_right(),
                KeyCode::Esc => {
                    self.is_editing = false;
                },
                _ => {},
            }
        }
    }
}

/// Committing and then resetting leaves buffer, committed value and cursor
/// in their initial state, whatever was typed before.
pub proof fn lemma_submit_then_reset_is_initial(field: UserInputView)
    ensures
        field.submit_message().reset().input is None,
        field.submit_message().reset().input_data.data() is None,
        field.submit_message().reset().character_index == 0,
        field.submit_message().reset().cursor_position is None,
        field.submit_message().reset() == field.reset(),
        field.reset().content().len() == 0,
{
}

/// Resetting twice is resetting once.
pub proof fn lemma_reset_idempotent(field: UserInputView)
    ensures
        (field.reset().reset() == field.reset()),
{
}

/// One step of editing puts the cursor within the buffer or right behind
/// it, wherever it stood before.
pub proof fn lemma_edit_puts_cursor_in_range(field: UserInputView, op: EditOp)
    ensures
        field.apply(op).cursor_in_range(),
        0 <= field.apply(op).character_index <= field.apply(op).content().len(),
{
}

/// After any sequence of moves, insertions and deletions the cursor of a
/// field stands within its buffer or right behind it. A fresh field starts
/// that way, so that the cursor of a field never leaves its buffer.
pub proof fn lemma_edits_keep_cursor_in_range(field: UserInputView, ops: Seq<EditOp>)
    requires
        field.cursor_in_range() || ops.len() > 0,
    ensures
        field.apply_all(ops).cursor_in_range(),
        0 <= field.apply_all(ops).character_index <= field.apply_all(ops).content().len(),
{
    if ops.len() > 0 {
        lemma_edit_puts_cursor_in_range(field.apply_all(ops.drop_last()), ops.last());
    }
}

/// Inserting a character, of however many bytes, and deleting it at once
/// gives back the characters of the buffer and the cursor position.
pub proof fn lemma_insert_then_delete_restores(field: UserInputView, c: char)
    requires
        field.cursor_in_range(),
    ensures
        field.enter_char(c).delete_char().content() == field.content(),
        field.enter_char(c).delete_char().character_index == field.character_index,
        field.enter_char(c).delete_char().input_data == field.input_data,
        field.enter_char(c).delete_char().is_editing == field.is_editing,
{
    let at = field.character_index as int;
    assert(field.content().insert(at, c).remove(at) =~= field.content());
}


/// The height of a region for `input_size` fields within an area that is
/// `area_height` rows high: three rows a field and two more, but no less
/// than a fifth of the area.
pub open spec fn spec_cal_high(input_size: int, area_height: int) -> int {
    let total_length = input_size * 3 + 2;
    if area_height / 5 > total_length {
        area_height / 5
    } else {
        total_length
    }
}

impl UserInput {
    /// The height of a region for `input_size` fields within `area`.
    pub fn cal_high(input_size: usize, area: Rect) -> (height: u16)
        requires
            input_size * 3 + 2 <= u16::MAX,
        ensures
            height == spec_cal_high(input_size as int, area.height as int),
    {
        let total_length: u16 = (input_size * 3 + 2) as u16;
        if area.height / 5 > total_length {
            area.height / 5
        } else {
            total_length
        }
    }
}

} // verus!
