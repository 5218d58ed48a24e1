//! A single-line terminal editor: key events in, terminal commands and a
//! finished line out, with every editing rule stated and proved.
pub mod editor;
pub mod error;
pub mod keys;
pub mod shapes;
pub mod terminal;
pub mod text;

pub use editor::{LineEditor, Readline, Status};
pub use error::ReadlineError;
pub use keys::{Event, KeyCode, KeyEvent, KeyModifiers};
pub use shapes::{Line, Rectangle, ShapeError, Text};
pub use terminal::{RawModeGuard, TermCommand};
