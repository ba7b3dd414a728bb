use vstd::prelude::*;
use vstd::string::*;

verus! {

/// The mathematical value of a text field: its characters and the cursor's
/// offset among them, counted in characters.
pub struct FieldModel {
    pub value: Seq<char>,
    pub cursor: nat,
}

impl FieldModel {
    /// The cursor lies on or between the characters of the text.
    pub open spec fn wf(self) -> bool {
        self.cursor <= self.value.len()
    }

    /// The field with no text, cursor at the start.
    pub open spec fn empty() -> FieldModel {
        FieldModel { value: Seq::<char>::empty(), cursor: 0 }
    }

    /// `pos` bounded into `[0, len]`.
    pub open spec fn clamp(self, pos: nat) -> nat {
        if pos <= self.value.len() {
            pos
        } else {
            self.value.len()
        }
    }

    /// The same text with the cursor one character to the left, if there is one.
    pub open spec fn move_left(self) -> FieldModel {
        let target: nat = if self.cursor == 0 {
            0
        } else {
            (self.cursor - 1) as nat
        };
        FieldModel { value: self.value, cursor: self.clamp(target) }
    }

    /// The same text with the cursor one character to the right, if there is one.
    pub open spec fn move_right(self) -> FieldModel {
        FieldModel { value: self.value, cursor: self.clamp(self.cursor + 1) }
    }

    /// The text with `c` put in at the cursor, the cursor now behind `c`.
    pub open spec fn insert(self, c: char) -> FieldModel {
        FieldModel { value: self.value.insert(self.cursor as int, c), cursor: self.cursor }.move_right()
    }

    /// The text without the character before the cursor, the cursor where that
    /// character was; unchanged when the cursor is at the start.
    pub open spec fn delete_back(self) -> FieldModel {
        if self.cursor == 0 {
            self
        } else {
            FieldModel { value: self.value.remove(self.cursor - 1), cursor: self.cursor }.move_left()
        }
    }
}

/// One step of the cursor.
#[derive(Clone, Copy, Debug, PartialEq, Eq, Structural)]
pub enum CursorMove {
    Left,
    Right,
}

impl FieldModel {
    /// The field after one step of the cursor.
    pub open spec fn moved(self, step: CursorMove) -> FieldModel {
        match step {
            CursorMove::Left => self.move_left(),
            CursorMove::Right => self.move_right(),
        }
    }

    /// The field after the steps of `steps`, taken first to last.
    pub open spec fn moved_along(self, steps: Seq<CursorMove>) -> FieldModel
        decreases steps.len(),
    {
        if steps.len() == 0 {
            self
        } else {
            self.moved_along(steps.drop_last()).moved(steps.last())
        }
    }
}

/// However the cursor is moved left and right, and however often, it stays on
/// or between the characters of the text, and the text stays as it was.
pub proof fn lemma_moves_keep_cursor_in_text(field: FieldModel, steps: Seq<CursorMove>)
    requires
        field.wf(),
    ensures
        field.moved_along(steps).wf(),
        field.moved_along(steps).value == field.value,
    decreases steps.len(),
{
    if steps.len() > 0 {
        lemma_moves_keep_cursor_in_text(field, steps.drop_last());
    }
}

/// Deleting backwards right after typing a character gives back the field as
/// it was before the character was typed: the same text and the same cursor.
pub proof fn lemma_insert_then_delete_restores(field: FieldModel, c: char)
    requires
        field.wf(),
    ensures
        field.insert(c).delete_back() == field,
{
    let typed = field.insert(c);
    assert(typed.value.remove(typed.cursor - 1) =~= field.value);
}

/// Typing a character makes the text one longer and leaves every other
/// character in its order: before the cursor in place, behind it one further.
pub proof fn lemma_insert_shape(field: FieldModel, c: char)
    requires
        field.wf(),
    ensures
        field.insert(c).wf(),
        field.insert(c).cursor == field.cursor + 1,
        field.insert(c).value.len() == field.value.len() + 1,
        field.insert(c).value[field.cursor as int] == c,
        forall|i: int| 0 <= i < field.cursor ==> field.insert(c).value[i] == field.value[i],
        forall|i: int|
            field.cursor <= i < field.value.len() ==> field.insert(c).value[i + 1]
                == field.value[i],
{
}

/// `String::push`: the string keeps its characters and gains `c` as its last one.
#[verifier::external_body]
pub(crate) fn push_char(s: &mut String, c: char)
    ensures
        final(s)@ == old(s)@.push(c),
{
    s.push(c);
}

/// One editable line of text with a cursor.
pub struct TextField {
    value: String,
    cursor_position: usize,
}

impl View for TextField {
    type V = FieldModel;

    closed spec fn view(&self) -> FieldModel {
        FieldModel { value: self.value@, cursor: self.cursor_position as nat }
    }
}

impl Default for TextField {
    fn default() -> (r: TextField)
        ensures
            r@ == FieldModel::empty(),
    {
        TextField { value: String::new(), cursor_position: 0 }
    }
}

impl TextField {
    /// Holds of every text field: the cursor is on or between the characters.
    #[verifier::type_invariant]
    pub open spec fn cursor_in_text(self) -> bool {
        self@.wf()
    }

    /// The text of the field.
    pub fn value(&self) -> (r: &str)
        ensures
            r@ == self@.value,
            self@.wf(),
    {
        proof {
            use_type_invariant(self);
        }
        self.value.as_str()
    }

    /// The cursor's offset, in characters from the start of the text.
    pub fn cursor_position(&self) -> (r: usize)
        ensures
            r == self@.cursor,
            self@.wf(),
    {
        proof {
            use_type_invariant(self);
        }
        self.cursor_position
    }

    /// The length of the text, in characters.
    pub fn len(&self) -> (r: usize)
        ensures
            r == self@.value.len(),
    {
        self.value.as_str().unicode_len()
    }

    /// Bounds `new_cursor_pos` into the text, whose length is thereby known to
    /// be a machine integer.
    pub fn clamp_cursor(&self, new_cursor_pos: usize) -> (r: usize)
        ensures
            r == self@.clamp(new_cursor_pos as nat),
            self@.value.len() <= usize::MAX,
    {
        let len: usize = self.len();
        if new_cursor_pos <= len {
            new_cursor_pos
        } else {
            len
        }
    }

    /// Moves the cursor one character to the left; at the start it stays.
    pub fn move_cursor_left(&mut self)
        ensures
            final(self)@ == old(self)@.move_left(),
            final(self)@.wf(),
    {
        proof {
            use_type_invariant(&*self);
        }
        let cursor_moved_left: usize = self.cursor_position.saturating_sub(1);
        self.cursor_position = self.clamp_cursor(cursor_moved_left);
    }

    /// Moves the cursor one character to the right; at the end it stays.
    pub fn move_cursor_right(&mut self)
        ensures
            final(self)@ == old(self)@.move_right(),
            final(self)@.wf(),
    {
        proof {
            use_type_invariant(&*self);
        }
        let cursor_moved_right: usize = self.cursor_position.saturating_add(1);
        self.cursor_position = self.clamp_cursor(cursor_moved_right);
    }

    /// Puts `new_char` into the text at the cursor and moves the cursor behind it.
    pub fn enter_char(&mut self, new_char: char)
        ensures
            final(self)@ == old(self)@.insert(new_char),
            final(self)@.wf(),
    {
        proof {
            use_type_invariant(&*self);
        }
        let len: usize = self.len();
        let text = self.value.as_str();
        let mut spliced = String::from_str(text.substring_char(0, self.cursor_position));
        push_char(&mut spliced, new_char);
        spliced.append(text.substring_char(self.cursor_position, len));
        self.value = spliced;
        self.move_cursor_right();
    }

    /// Deletes the character before the cursor, if there is one, and moves the
    /// cursor to where it was.
    pub fn delete_char(&mut self)
        ensures
            final(self)@ == old(self)@.delete_back(),
            final(self)@.wf(),
    {
        proof {
            use_type_invariant(&*self);
        }
        if self.cursor_position == 0 {
            return ;
        }
        let len: usize = self.len();
        let text = self.value.as_str();
        let mut spliced = String::from_str(text.substring_char(0, self.cursor_position - 1));
        spliced.append(text.substring_char(self.cursor_position, len));
        self.cursor_position = self.cursor_position - 1;
        self.value = spliced;
    }

    /// Empties the text and puts the cursor at the start.
    pub fn reset(&mut self)
        ensures
            final(self)@ == FieldModel::empty(),
    {
        self.cursor_position = 0;
        self.value = String::new();
    }
}

} // verus!
