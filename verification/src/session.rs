use vstd::prelude::*;
use vstd::string::*;
use crate::keys::KeyAction;
use crate::keys::KeyInput;
use crate::laws::notices_are_not_blank;
use crate::span::Span;
use crate::span::SpanStyle;
use crate::span::SpanView;
use crate::status::StatusKind;
use crate::status::StatusMessage;
use crate::status::StatusMessageView;

verus! {

/// What the session tells the host about a cancellation signal.
#[derive(Clone, Copy, Debug, PartialEq, Eq, Structural)]
pub enum CancellationEvent {
    /// The signal was not for this overlay; the host may act on it.
    Ignored,
    /// The signal was dealt with; the host must not act on it again.
    Handled,
}

/// Why a save did not reach the file, with the underlying message.
#[derive(Debug, PartialEq, Eq)]
pub enum SaveError {
    /// The directory that holds the file could not be created.
    DirectoryCreateFailed(String),
    /// The file could not be written.
    WriteFailed(String),
}

impl SaveError {
    /// The underlying message, whichever step failed.
    pub open spec fn description(self) -> Seq<char> {
        match self {
            SaveError::DirectoryCreateFailed(message) => message@,
            SaveError::WriteFailed(message) => message@,
        }
    }

    /// The underlying message, whichever step failed.
    pub fn message(&self) -> (message: &str)
        ensures
            message@ == self.description(),
    {
        match self {
            SaveError::DirectoryCreateFailed(message) => message.as_str(),
            SaveError::WriteFailed(message) => message.as_str(),
        }
    }
}

/// The state of an editing session as contracts speak of it.
pub struct SessionState {
    /// The file's path as it is shown to the operator.
    pub display_path: Seq<char>,
    /// The text the text primitive holds.
    pub text: Seq<char>,
    /// The text as it was when the session began or was last saved.
    pub last_saved_text: Seq<char>,
    /// Whether `text` differs from `last_saved_text`.
    pub dirty: bool,
    /// Whether the host should tear the session down.
    pub complete: bool,
    /// The transient message on the status line, if there is one.
    pub status_message: Option<StatusMessageView>,
    /// Whether a close request is waiting to be repeated.
    pub confirm_discard: bool,
}

impl SessionState {
    /// The invariant of a session: `dirty` says whether the text differs from
    /// what was saved, a close request waits for confirmation only while
    /// there is something to lose, and never once the session is complete,
    /// and a status message has words.
    pub open spec fn wf(self) -> bool {
        &&& self.dirty == (self.text != self.last_saved_text)
        &&& self.confirm_discard ==> self.dirty
        &&& !(self.confirm_discard && self.complete)
        &&& self.status_message matches Some(message) ==> message.text.len() > 0
    }

    /// A session that has just been opened on `contents`.
    pub open spec fn init(display_path: Seq<char>, contents: Seq<char>) -> SessionState {
        SessionState {
            display_path,
            text: contents,
            last_saved_text: contents,
            dirty: false,
            complete: false,
            status_message: None,
            confirm_discard: false,
        }
    }

    /// The session after the text primitive has applied an edit that left it
    /// holding `after`. An edit that changes nothing has no effect. One that
    /// changes the text settles `dirty` anew and wipes the status message and
    /// a waiting close request.
    pub open spec fn edited(self, after: Seq<char>) -> SessionState {
        if after == self.text {
            self
        } else {
            SessionState {
                text: after,
                dirty: after != self.last_saved_text,
                status_message: None,
                confirm_discard: false,
                ..self
            }
        }
    }

    /// The message that reports a save.
    pub open spec fn saved_notice(self) -> StatusMessageView {
        StatusMessageView { text: "Saved to "@ + self.display_path, kind: StatusKind::Info }
    }

    /// The session after its text has been written to the file.
    pub open spec fn saved(self) -> SessionState {
        SessionState {
            last_saved_text: self.text,
            dirty: false,
            status_message: Some(self.saved_notice()),
            confirm_discard: false,
            ..self
        }
    }

    /// The message that reports a failed save.
    pub open spec fn failure_notice(message: Seq<char>) -> StatusMessageView {
        StatusMessageView {
            text: "Failed to save preferences: "@ + message,
            kind: StatusKind::Error,
        }
    }

    /// The session after a save has failed with `message`: only the status
    /// line changes.
    pub open spec fn save_failed(self, message: Seq<char>) -> SessionState {
        SessionState { status_message: Some(Self::failure_notice(message)), ..self }
    }

    /// The message that asks for a close request to be repeated.
    pub open spec fn discard_warning() -> StatusMessageView {
        StatusMessageView {
            text: "Unsaved changes. Press Esc again to discard, or Ctrl+S to save."@,
            kind: StatusKind::Warning,
        }
    }

    /// Whether a close request is held back for confirmation: the session is
    /// open, has unsaved changes, and no earlier request is waiting.
    pub open spec fn close_needs_confirmation(self) -> bool {
        self.dirty && !self.confirm_discard && !self.complete
    }

    /// The session after a close request. A request that needs confirmation
    /// is noted and answered with a warning. Any other completes the session.
    pub open spec fn close_requested(self) -> SessionState {
        if self.close_needs_confirmation() {
            SessionState {
                confirm_discard: true,
                status_message: Some(Self::discard_warning()),
                ..self
            }
        } else {
            SessionState { complete: true, confirm_discard: false, ..self }
        }
    }

    /// What the status line shows: the transient message in the colour of its
    /// category if there is one, else a standing note on whether there are
    /// unsaved changes.
    pub open spec fn status_span(self) -> SpanView {
        match self.status_message {
            Some(message) => message.as_span(),
            None => if self.dirty {
                SpanView {
                    content: "Unsaved changes — press Ctrl+S to save"@,
                    style: SpanStyle::Yellow,
                }
            } else {
                SpanView { content: "All changes saved"@, style: SpanStyle::Green }
            },
        }
    }
}

/// The view of an optional status message.
pub open spec fn status_view(message: Option<StatusMessage>) -> Option<StatusMessageView> {
    match message {
        Some(message) => Some(message@),
        None => None,
    }
}

/// An editing session on one text file.
///
/// The session does not own the text primitive or the file. The host tells it
/// what the primitive holds after each edit ([`Self::apply_editor_change`])
/// and how a write ended ([`Self::save`]); the session keeps the flags and the
/// status line.
#[derive(Debug)]
pub struct PreferencesEditorView {
    display_path: String,
    text: String,
    last_saved_text: String,
    dirty: bool,
    complete: bool,
    status_message: Option<StatusMessage>,
    confirm_discard: bool,
}

impl View for PreferencesEditorView {
    type V = SessionState;

    closed spec fn view(&self) -> SessionState {
        SessionState {
            display_path: self.display_path@,
            text: self.text@,
            last_saved_text: self.last_saved_text@,
            dirty: self.dirty,
            complete: self.complete,
            status_message: status_view(self.status_message),
            confirm_discard: self.confirm_discard,
        }
    }
}

impl PreferencesEditorView {
    /// Opens a session on a file whose content is `contents`. The session
    /// starts clean: `contents` is both the text and the saved text.
    pub fn new(display_path: String, contents: String) -> (session: Self)
        ensures
            session@ == SessionState::init(display_path@, contents@),
            session@.wf(),
    {
        let text = contents.clone();
        Self {
            display_path,
            text,
            last_saved_text: contents,
            dirty: false,
            complete: false,
            status_message: None,
            confirm_discard: false,
        }
    }

    /// Takes note of what the text primitive holds after an edit, and says
    /// whether the edit changed the text.
    pub fn apply_editor_change(&mut self, after: String) -> (changed: bool)
        ensures
            changed == (after@ != old(self)@.text),
            final(self)@ == old(self)@.edited(after@),
            old(self)@.wf() ==> final(self)@.wf(),
    {
        let changed = !(after == self.text);
        if changed {
            self.dirty = !(after == self.last_saved_text);
            self.status_message = None;
            self.confirm_discard = false;
        }
        self.text = after;
        changed
    }

    /// Takes note of how writing [`Self::text`] to the file ended. A write
    /// that succeeded makes the session clean and reports where the text
    /// went. One that failed changes nothing but the status line, which
    /// reports the failure.
    pub fn save(&mut self, outcome: Result<(), SaveError>)
        ensures
            final(self)@ == (match outcome {
                Ok(_) => old(self)@.saved(),
                Err(error) => old(self)@.save_failed(error.description()),
            }),
            old(self)@.wf() ==> final(self)@.wf(),
    {
        proof {
            notices_are_not_blank(old(self)@, outcome->Err_0.description());
        }
        match outcome {
            Ok(_) => {
                self.last_saved_text = self.text.clone();
                self.dirty = false;
                let notice = String::from_str("Saved to ").concat(self.display_path.as_str());
                self.status_message = Some(StatusMessage::info(notice));
                self.confirm_discard = false;
            },
            Err(error) => {
                let notice = String::from_str("Failed to save preferences: ").concat(
                    error.message(),
                );
                self.status_message = Some(StatusMessage::error(notice));
            },
        }
    }

    /// Asks to close the session. With no unsaved changes the session
    /// completes at once. With unsaved changes the first request only arms
    /// the confirmation and warns; the next one, if no edit or save came
    /// between, completes the session and the changes are lost.
    pub fn request_close(&mut self)
        ensures
            final(self)@ == old(self)@.close_requested(),
            old(self)@.wf() ==> final(self)@.wf(),
    {
        proof {
            notices_are_not_blank(old(self)@, Seq::empty());
        }
        if self.dirty && !self.confirm_discard && !self.complete {
            self.confirm_discard = true;
            self.status_message = Some(
                StatusMessage::warning(
                    String::from_str(
                        "Unsaved changes. Press Esc again to discard, or Ctrl+S to save.",
                    ),
                ),
            );
        } else {
            self.complete = true;
            self.confirm_discard = false;
        }
    }

    /// Decides what a key press does. A close request is carried out here.
    /// For `Save` the host writes [`Self::text`] to the file and reports the
    /// outcome to [`Self::save`]. For `Edit` the host hands the key to the
    /// text primitive and reports the text to
    /// [`Self::apply_editor_change`].
    pub fn handle_key_event(&mut self, key: KeyInput) -> (action: KeyAction)
        ensures
            action == key.action(),
            final(self)@ == (if action == KeyAction::Close {
                old(self)@.close_requested()
            } else {
                old(self)@
            }),
            old(self)@.wf() ==> final(self)@.wf(),
    {
        let action = key.classify();
        match action {
            KeyAction::Close => {
                self.request_close();
            },
            _ => {},
        }
        action
    }

    /// Treats a cancellation signal as a close request, and tells the host
    /// that the signal needs no further handling.
    pub fn on_ctrl_c(&mut self) -> (event: CancellationEvent)
        ensures
            event == CancellationEvent::Handled,
            final(self)@ == old(self)@.close_requested(),
            old(self)@.wf() ==> final(self)@.wf(),
    {
        self.request_close();
        CancellationEvent::Handled
    }

    /// Whether the host should tear the session down.
    pub fn is_complete(&self) -> (complete: bool)
        ensures
            complete == self@.complete,
    {
        self.complete
    }

    /// Whether the text differs from what was last saved.
    pub fn is_dirty(&self) -> (dirty: bool)
        ensures
            dirty == self@.dirty,
    {
        self.dirty
    }

    /// Whether a close request is waiting to be repeated.
    pub fn confirm_discard(&self) -> (armed: bool)
        ensures
            armed == self@.confirm_discard,
    {
        self.confirm_discard
    }

    /// The transient status message, if there is one.
    pub fn status_message(&self) -> (message: Option<&StatusMessage>)
        ensures
            match message {
                Some(message) => self@.status_message == Some(message@),
                None => self@.status_message is None,
            },
    {
        self.status_message.as_ref()
    }

    /// The text the text primitive holds, as last reported.
    pub fn text(&self) -> (text: &str)
        ensures
            text@ == self@.text,
    {
        self.text.as_str()
    }

    /// The text as it was when the session began or was last saved.
    pub fn last_saved_text(&self) -> (text: &str)
        ensures
            text@ == self@.last_saved_text,
    {
        self.last_saved_text.as_str()
    }

    /// The file's path as it is shown to the operator.
    pub fn display_path(&self) -> (path: &str)
        ensures
            path@ == self@.display_path,
    {
        self.display_path.as_str()
    }

    /// The content of the status line. The line is never blank: without a
    /// transient message it says whether there are unsaved changes.
    pub fn status_span(&self) -> (span: Span)
        ensures
            span@ == self@.status_span(),
    {
        if let Some(message) = &self.status_message {
            return message.as_span();
        }
        if self.dirty {
            Span {
                content: String::from_str("Unsaved changes — press Ctrl+S to save"),
                style: SpanStyle::Yellow,
            }
        } else {
            Span { content: String::from_str("All changes saved"), style: SpanStyle::Green }
        }
    }
}

} // verus!
