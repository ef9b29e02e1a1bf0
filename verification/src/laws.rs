//! What holds of a session whatever the operator and the host do, stated
//! over the session's view and proved from the definitions of its steps.

use vstd::prelude::*;
use crate::session::SessionState;

verus! {

/// Something that happens to a session.
pub enum SessionEvent {
    /// The text primitive applied an edit and now holds this text.
    Edit(Seq<char>),
    /// The text was written to the file.
    SaveSucceeded,
    /// Writing the text failed with this message.
    SaveFailed(Seq<char>),
    /// The operator asked to close, by key or by cancellation signal.
    CloseRequested,
}

impl SessionState {
    /// The session after `event`.
    pub open spec fn after(self, event: SessionEvent) -> SessionState {
        match event {
            SessionEvent::Edit(text) => self.edited(text),
            SessionEvent::SaveSucceeded => self.saved(),
            SessionEvent::SaveFailed(message) => self.save_failed(message),
            SessionEvent::CloseRequested => self.close_requested(),
        }
    }

    /// The session after `events`, the first of them first.
    pub open spec fn after_all(self, events: Seq<SessionEvent>) -> SessionState
        decreases events.len(),
    {
        if events.len() == 0 {
            self
        } else {
            self.after_all(events.drop_last()).after(events.last())
        }
    }
}

/// A session that has just been opened is clean, open and well-formed.
pub proof fn new_session_is_clean(display_path: Seq<char>, contents: Seq<char>)
    ensures
        SessionState::init(display_path, contents).wf(),
        !SessionState::init(display_path, contents).dirty,
        !SessionState::init(display_path, contents).complete,
{
}

/// No event breaks the invariant of a session: afterwards `dirty` still says
/// whether the text differs from the saved text, and a close request waits
/// for confirmation only in an open session with unsaved changes.
pub proof fn event_keeps_invariant(state: SessionState, event: SessionEvent)
    requires
        state.wf(),
    ensures
        state.after(event).wf(),
{
    match event {
        SessionEvent::SaveFailed(message) => notices_are_not_blank(state, message),
        _ => notices_are_not_blank(state, Seq::empty()),
    }
}

/// Each of the three messages a session posts has words: the report of a
/// save, the report of a failed save whatever the underlying message, and
/// the warning before unsaved changes are discarded.
pub proof fn notices_are_not_blank(state: SessionState, message: Seq<char>)
    ensures
        state.saved_notice().text.len() > 0,
        SessionState::failure_notice(message).text.len() > 0,
        SessionState::discard_warning().text.len() > 0,
{
    reveal_strlit("Saved to ");
    reveal_strlit("Failed to save preferences: ");
    reveal_strlit("Unsaved changes. Press Esc again to discard, or Ctrl+S to save.");
}

/// From the moment a session is opened, after every one of any sequence of
/// edits, saves, failed saves and close requests, `dirty` is true exactly
/// when the text differs from the text last saved, and the rest of the
/// invariant holds with it.
pub proof fn dirty_tracks_unsaved_text(
    display_path: Seq<char>,
    contents: Seq<char>,
    events: Seq<SessionEvent>,
)
    ensures
        forall|n: int|
            0 <= n <= events.len() ==> {
                let state = #[trigger] SessionState::init(display_path, contents).after_all(
                    events.take(n),
                );
                &&& state.wf()
                &&& state.dirty == (state.text != state.last_saved_text)
            },
{
    let start = SessionState::init(display_path, contents);
    assert forall|n: int| 0 <= n <= events.len() implies (#[trigger] start.after_all(
        events.take(n),
    )).wf() by {
        invariant_after_all(start, events.take(n));
    }
}

/// A well-formed session is well-formed after any sequence of events.
pub proof fn invariant_after_all(state: SessionState, events: Seq<SessionEvent>)
    requires
        state.wf(),
    ensures
        state.after_all(events).wf(),
    decreases events.len(),
{
    if events.len() > 0 {
        invariant_after_all(state, events.drop_last());
        event_keeps_invariant(state.after_all(events.drop_last()), events.last());
    }
}

/// A save that succeeds leaves the session clean, with no close request
/// waiting, and with exactly the text that was written as the saved text.
pub proof fn save_makes_clean(state: SessionState)
    ensures
        !state.saved().dirty,
        !state.saved().confirm_discard,
        state.saved().last_saved_text == state.text,
        state.saved().text == state.text,
        state.saved().complete == state.complete,
{
}

/// One close request completes a session that has no unsaved changes.
pub proof fn close_of_clean_session_completes(state: SessionState)
    requires
        !state.dirty,
    ensures
        state.close_requested().complete,
        !state.close_requested().confirm_discard,
{
}

/// An open session with unsaved changes, and with no close request waiting
/// yet, is still open after one close request and complete after the next.
pub proof fn second_close_discards(state: SessionState)
    requires
        state.dirty,
        !state.complete,
        !state.confirm_discard,
    ensures
        !state.close_requested().complete,
        state.close_requested().confirm_discard,
        state.close_requested().close_requested().complete,
        !state.close_requested().close_requested().confirm_discard,
{
}

/// An edit between two close requests takes the confirmation back. Whatever
/// an open session was waiting for, after an edit that changed the text and
/// left it different from the saved text the next close request is treated
/// like a first one: it arms the confirmation and does not complete the
/// session.
pub proof fn edit_resets_confirmation(state: SessionState, after: Seq<char>)
    requires
        !state.complete,
        after != state.text,
        after != state.last_saved_text,
    ensures
        !state.edited(after).confirm_discard,
        state.edited(after).status_message is None,
        state.edited(after).close_requested().confirm_discard,
        !state.edited(after).close_requested().complete,
        state.edited(after).close_requested().close_requested().complete,
{
}

/// An edit that changes the text disarms a waiting close request, whatever
/// the text becomes.
pub proof fn changing_edit_disarms(state: SessionState, after: Seq<char>)
    requires
        after != state.text,
    ensures
        !state.edited(after).confirm_discard,
        state.edited(after).status_message is None,
        state.edited(after).dirty == (after != state.last_saved_text),
{
}

/// A save that fails changes the status line and nothing else: the session
/// is as dirty as before, and it is complete only if it was before.
pub proof fn failed_save_keeps_flags(state: SessionState, message: Seq<char>)
    ensures
        state.save_failed(message).dirty == state.dirty,
        state.save_failed(message).complete == state.complete,
        state.save_failed(message).confirm_discard == state.confirm_discard,
        state.save_failed(message).text == state.text,
        state.save_failed(message).last_saved_text == state.last_saved_text,
        state.save_failed(message).status_message == Some(SessionState::failure_notice(message)),
{
}

/// A session that is complete stays complete, whatever happens to it.
pub proof fn complete_is_final(state: SessionState, event: SessionEvent)
    requires
        state.complete,
    ensures
        state.after(event).complete,
{
}

/// The status line is never blank: with a message it shows the message,
/// which has words, and without one the standing note on unsaved changes.
pub proof fn status_line_is_never_blank(state: SessionState)
    requires
        state.wf(),
    ensures
        state.status_span().content.len() > 0,
{
    reveal_strlit("Unsaved changes — press Ctrl+S to save");
    reveal_strlit("All changes saved");
}

/// From the moment a session is opened, after every one of any sequence of
/// edits, saves, failed saves and close requests, the status line is not
/// blank.
pub proof fn status_line_is_never_blank_after(
    display_path: Seq<char>,
    contents: Seq<char>,
    events: Seq<SessionEvent>,
)
    ensures
        SessionState::init(display_path, contents).after_all(events).status_span().content.len()
            > 0,
{
    invariant_after_all(SessionState::init(display_path, contents), events);
    status_line_is_never_blank(SessionState::init(display_path, contents).after_all(events));
}

} // verus!
