//! A login form for the terminal: two text fields edited under a cursor, a
//! list of programs, and the focus that moves between them.
pub mod field;
pub mod focus;
pub mod form;
pub mod input;

pub use field::{CursorMove, FieldModel, TextField};
pub use focus::{Focus, FocusStep};
pub use form::{App, FormModel, MASK_CHAR};
pub use input::{Input, Key, TermEvent};
