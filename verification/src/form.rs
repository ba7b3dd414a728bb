use vstd::prelude::*;
use crate::field::{push_char, FieldModel, TextField};
use crate::focus::Focus;
use crate::input::{Input, TermEvent};

verus! {

/// The character shown in place of each character of the password.
pub const MASK_CHAR: char = '*';

/// What is shown for a secret text of `len` characters: `len` mask characters.
pub open spec fn masked(len: nat) -> Seq<char> {
    Seq::new(len, |i: int| MASK_CHAR)
}

/// The mask is as long as the secret text and holds the mask character alone:
/// two texts of one length are shown alike.
pub proof fn lemma_mask_shape(len: nat)
    ensures
        masked(len).len() == len,
        forall|i: int| 0 <= i < len ==> masked(len)[i] == MASK_CHAR,
{
}

/// The mathematical value of the form.
pub struct FormModel {
    pub username: FieldModel,
    pub password: FieldModel,
    pub programs: Seq<Seq<char>>,
    pub selected: nat,
    pub focus: Focus,
}

impl FormModel {
    /// Both text fields have their cursor in their text.
    pub open spec fn wf(self) -> bool {
        self.username.wf() && self.password.wf()
    }

    /// The form of a new session: focus on the username, nothing typed, no
    /// programs to choose from.
    pub open spec fn initial() -> FormModel {
        FormModel {
            username: FieldModel::empty(),
            password: FieldModel::empty(),
            programs: Seq::<Seq<char>>::empty(),
            selected: 0,
            focus: Focus::Username,
        }
    }

    /// The text field that has the focus, if a text field has it.
    pub open spec fn focused(self) -> Option<FieldModel> {
        match self.focus {
            Focus::Username => Some(self.username),
            Focus::Password => Some(self.password),
            Focus::ProgramList => None,
        }
    }

    /// The form with `field` in place of the text field that has the focus;
    /// the form itself if no text field has it.
    pub open spec fn with_focused(self, field: FieldModel) -> FormModel {
        match self.focus {
            Focus::Username => FormModel { username: field, ..self },
            Focus::Password => FormModel { password: field, ..self },
            Focus::ProgramList => self,
        }
    }

    /// The form with the focus on the next target; the last target keeps it.
    pub open spec fn next_input(self) -> FormModel {
        FormModel { focus: self.focus.next(), ..self }
    }

    /// The form with the focus on the target before; the first target keeps it.
    pub open spec fn prev_input(self) -> FormModel {
        FormModel { focus: self.focus.prev(), ..self }
    }

    /// The form after `c` was typed into the text field that has the focus.
    pub open spec fn enter_char(self, c: char) -> FormModel {
        match self.focused() {
            Some(field) => self.with_focused(field.insert(c)),
            None => self,
        }
    }

    /// The form after the character before the cursor was deleted from the
    /// text field that has the focus.
    pub open spec fn delete_char(self) -> FormModel {
        match self.focused() {
            Some(field) => self.with_focused(field.delete_back()),
            None => self,
        }
    }

    /// The form with the cursor of the focused text field one to the left.
    pub open spec fn move_cursor_left(self) -> FormModel {
        match self.focused() {
            Some(field) => self.with_focused(field.move_left()),
            None => self,
        }
    }

    /// The form with the cursor of the focused text field one to the right.
    pub open spec fn move_cursor_right(self) -> FormModel {
        match self.focused() {
            Some(field) => self.with_focused(field.move_right()),
            None => self,
        }
    }

    /// The form with the focused text field emptied.
    pub open spec fn reset(self) -> FormModel {
        self.with_focused(FieldModel::empty())
    }

    /// The cursor of the text field that has the focus; 0 if none has it.
    pub open spec fn cursor_position(self) -> nat {
        match self.focused() {
            Some(field) => field.cursor,
            None => 0,
        }
    }

    /// The form after one input.
    pub open spec fn applied(self, input: Input) -> FormModel {
        match input {
            Input::NextField => self.next_input(),
            Input::PrevField => self.prev_input(),
            Input::InsertChar(c) => self.enter_char(c),
            Input::DeleteBackward => self.delete_char(),
            Input::MoveCursorLeft => self.move_cursor_left(),
            Input::MoveCursorRight => self.move_cursor_right(),
            Input::ResetField => self.reset(),
        }
    }

    /// The form after the inputs of `inputs`, taken first to last.
    pub open spec fn applied_all(self, inputs: Seq<Input>) -> FormModel
        decreases inputs.len(),
    {
        if inputs.len() == 0 {
            self
        } else {
            self.applied_all(inputs.drop_last()).applied(inputs.last())
        }
    }

    /// The form after an event of the terminal: only an input changes it.
    pub open spec fn handled(self, event: TermEvent) -> FormModel {
        match event.carried() {
            Some(input) => self.applied(input),
            None => self,
        }
    }
}

/// Whatever inputs reach the form, in whatever order, both cursors stay on or
/// between the characters of their text, and the list of programs and the
/// selection in it stay as they were.
pub proof fn lemma_inputs_keep_cursors_in_text(form: FormModel, inputs: Seq<Input>)
    requires
        form.wf(),
    ensures
        form.applied_all(inputs).wf(),
        form.applied_all(inputs).programs == form.programs,
        form.applied_all(inputs).selected == form.selected,
    decreases inputs.len(),
{
    if inputs.len() > 0 {
        lemma_inputs_keep_cursors_in_text(form, inputs.drop_last());
    }
}

/// Deleting backwards right after typing a character gives back the form as
/// it was before the character was typed.
pub proof fn lemma_enter_then_delete_restores(form: FormModel, c: char)
    requires
        form.wf(),
    ensures
        form.enter_char(c).delete_char() == form,
{
    match form.focused() {
        Some(field) => {
            crate::field::lemma_insert_then_delete_restores(field, c);
        },
        None => {},
    }
}

/// An input changes the focus only by moving it one target on or back, and the
/// text fields only by editing the one that has the focus: while the list of
/// programs has it, editing changes nothing at all.
pub proof fn lemma_input_frame(form: FormModel, input: Input)
    ensures
        input != Input::NextField && input != Input::PrevField ==> form.applied(input).focus
            == form.focus,
        input == Input::NextField || input == Input::PrevField ==> form.applied(input).username
            == form.username && form.applied(input).password == form.password,
        form.focus != Focus::Username ==> form.applied(input).username == form.username,
        form.focus != Focus::Password ==> form.applied(input).password == form.password,
        form.focus == Focus::ProgramList && input != Input::PrevField ==> form.applied(input)
            == form,
{
}

/// The state of the form: two text fields, a list of programs to choose from,
/// and the focus.
#[allow(dead_code)]
pub struct App {
    username: TextField,
    password: TextField,
    program_list: Vec<String>,
    program_idx: usize,
    focus: Focus,
}

impl View for App {
    type V = FormModel;

    closed spec fn view(&self) -> FormModel {
        FormModel {
            username: self.username@,
            password: self.password@,
            programs: self.program_list.deep_view(),
            selected: self.program_idx as nat,
            focus: self.focus,
        }
    }
}

impl Default for App {
    fn default() -> (r: App)
        ensures
            r@ == FormModel::initial(),
    {
        let r = App {
            username: TextField::default(),
            password: TextField::default(),
            program_list: Vec::new(),
            program_idx: 0,
            focus: Focus::Username,
        };
        assert(r.program_list.deep_view() =~= Seq::<Seq<char>>::empty());
        r
    }
}

impl App {
    /// The target that has the focus.
    pub fn focus(&self) -> (r: &Focus)
        ensures
            *r == self@.focus,
    {
        &self.focus
    }

    /// The text of the username field.
    pub fn username(&self) -> (r: &str)
        ensures
            r@ == self@.username.value,
            self@.wf(),
    {
        proof {
            use_type_invariant(&self.password);
        }
        self.username.value()
    }

    /// The text of the password field. It is not for display: see
    /// `password_mask`.
    pub fn password(&self) -> (r: &str)
        ensures
            r@ == self@.password.value,
            self@.wf(),
    {
        proof {
            use_type_invariant(&self.username);
        }
        self.password.value()
    }

    /// What to show for the password: one mask character for each of its
    /// characters, and nothing else of it.
    pub fn password_mask(&self) -> (r: String)
        ensures
            r@ == masked(self@.password.value.len()),
    {
        let len: usize = self.password.len();
        let mut mask = String::new();
        let mut shown: usize = 0;
        while shown < len
            invariant
                shown <= len,
                mask@ == masked(shown as nat),
            decreases len - shown,
        {
            push_char(&mut mask, MASK_CHAR);
            shown = shown + 1;
            assert(mask@ =~= masked(shown as nat));
        }
        assert(mask@ =~= masked(len as nat));
        mask
    }

    /// Moves the focus to the next target, if there is one.
    pub fn next_input(&mut self)
        ensures
            final(self)@ == old(self)@.next_input(),
            final(self)@.wf(),
    {
        proof {
            use_type_invariant(&self.username);
            use_type_invariant(&self.password);
        }
        match self.focus {
            Focus::Username => self.focus = Focus::Password,
            Focus::Password => self.focus = Focus::ProgramList,
            Focus::ProgramList => {},
        }
    }

    /// Moves the focus to the target before, if there is one.
    pub fn prev_input(&mut self)
        ensures
            final(self)@ == old(self)@.prev_input(),
            final(self)@.wf(),
    {
        proof {
            use_type_invariant(&self.username);
            use_type_invariant(&self.password);
        }
        match self.focus {
            Focus::Username => {},
            Focus::Password => self.focus = Focus::Username,
            Focus::ProgramList => self.focus = Focus::Password,
        }
    }

    /// Types `to_insert` at the cursor of the focused text field.
    pub fn enter_char(&mut self, to_insert: char)
        ensures
            final(self)@ == old(self)@.enter_char(to_insert),
            final(self)@.wf(),
    {
        proof {
            use_type_invariant(&self.username);
            use_type_invariant(&self.password);
        }
        match self.focus {
            Focus::Username => self.username.enter_char(to_insert),
            Focus::Password => self.password.enter_char(to_insert),
            Focus::ProgramList => {},
        }
    }

    /// Deletes the character before the cursor of the focused text field.
    pub fn delete_char(&mut self)
        ensures
            final(self)@ == old(self)@.delete_char(),
            final(self)@.wf(),
    {
        proof {
            use_type_invariant(&self.username);
            use_type_invariant(&self.password);
        }
        match self.focus {
            Focus::Username => self.username.delete_char(),
            Focus::Password => self.password.delete_char(),
            Focus::ProgramList => {},
        }
    }

    /// Moves the cursor of the focused text field one character to the left.
    pub fn move_cursor_left(&mut self)
        ensures
            final(self)@ == old(self)@.move_cursor_left(),
            final(self)@.wf(),
    {
        proof {
            use_type_invariant(&self.username);
            use_type_invariant(&self.password);
        }
        match self.focus {
            Focus::Username => self.username.move_cursor_left(),
            Focus::Password => self.password.move_cursor_left(),
            Focus::ProgramList => {},
        }
    }

    /// Moves the cursor of the focused text field one character to the right.
    pub fn move_cursor_right(&mut self)
        ensures
            final(self)@ == old(self)@.move_cursor_right(),
            final(self)@.wf(),
    {
        proof {
            use_type_invariant(&self.username);
            use_type_invariant(&self.password);
        }
        match self.focus {
            Focus::Username => self.username.move_cursor_right(),
            Focus::Password => self.password.move_cursor_right(),
            Focus::ProgramList => {},
        }
    }

    /// The column of the caret: the cursor of the focused text field, or 0
    /// while the list of programs has the focus.
    pub fn cursor_position(&self) -> (r: usize)
        ensures
            r == self@.cursor_position(),
            self@.wf(),
    {
        proof {
            use_type_invariant(&self.username);
            use_type_invariant(&self.password);
        }
        match self.focus {
            Focus::Username => self.username.cursor_position(),
            Focus::Password => self.password.cursor_position(),
            Focus::ProgramList => 0,
        }
    }

    /// Empties the focused text field.
    pub fn reset(&mut self)
        ensures
            final(self)@ == old(self)@.reset(),
            final(self)@.wf(),
    {
        proof {
            use_type_invariant(&self.username);
            use_type_invariant(&self.password);
        }
        match self.focus {
            Focus::Username => self.username.reset(),
            Focus::Password => self.password.reset(),
            Focus::ProgramList => {},
        }
    }

    /// Carries out one input.
    pub fn apply(&mut self, input: Input)
        ensures
            final(self)@ == old(self)@.applied(input),
            final(self)@.wf(),
    {
        match input {
            Input::NextField => self.next_input(),
            Input::PrevField => self.prev_input(),
            Input::InsertChar(c) => self.enter_char(c),
            Input::DeleteBackward => self.delete_char(),
            Input::MoveCursorLeft => self.move_cursor_left(),
            Input::MoveCursorRight => self.move_cursor_right(),
            Input::ResetField => self.reset(),
        }
    }

    /// Takes one event of the terminal: carries out the input of a bound key
    /// that went down, and says whether the form is to be drawn again before
    /// the next event is read.
    pub fn handle_event(&mut self, event: TermEvent) -> (redraw: bool)
        ensures
            final(self)@ == old(self)@.handled(event),
            final(self)@.wf(),
            redraw == event.redraws(),
    {
        proof {
            use_type_invariant(&self.username);
            use_type_invariant(&self.password);
        }
        match event {
            TermEvent::Resize => true,
            TermEvent::KeyDown(key) => match key.input() {
                Some(input) => {
                    self.apply(input);
                    true
                },
                None => false,
            },
            TermEvent::KeyUp(_) => false,
            TermEvent::Other => true,
        }
    }
}

} // verus!
