//! A modal editing session for one text file, shown as an overlay in a
//! terminal interface.
//!
//! The crate holds the two parts of such an overlay that have rules of their
//! own: the session state machine (unsaved changes, saving, the two-step
//! confirmation before unsaved edits are thrown away, the status line) and the
//! layout planner (how the available rectangle is divided and what is painted
//! where). The text-editing primitive and the file system belong to the host:
//! the host reports what they did as plain values and carries out what the
//! session decides. The plan is drawn on a `ratatui` buffer paint by paint,
//! each cut to the cells the buffer has.

pub mod geometry;
pub mod keys;
pub mod laws;
pub mod layout;
pub mod layout_laws;
pub mod session;
pub mod span;
pub mod status;
pub mod surface;

pub use geometry::Rect;
pub use keys::KeyAction;
pub use keys::KeyCode;
pub use keys::KeyInput;
pub use keys::KeyModifiers;
pub use layout::Paint;
pub use session::CancellationEvent;
pub use session::PreferencesEditorView;
pub use session::SaveError;
pub use span::gutter;
pub use span::Span;
pub use span::SpanStyle;
pub use status::StatusKind;
pub use status::StatusMessage;
