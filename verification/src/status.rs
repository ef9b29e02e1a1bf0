use vstd::prelude::*;
use crate::span::Span;
use crate::span::SpanStyle;
use crate::span::SpanView;

verus! {

/// The three categories of status feedback.
#[derive(Clone, Copy, Debug, PartialEq, Eq, Structural)]
pub enum StatusKind {
    Info,
    Error,
    Warning,
}

/// A transient message for the status line.
#[derive(Debug, PartialEq, Eq)]
pub struct StatusMessage {
    text: String,
    kind: StatusKind,
}

/// What a [`StatusMessage`] says: its characters and its category.
pub struct StatusMessageView {
    pub text: Seq<char>,
    pub kind: StatusKind,
}

impl View for StatusMessage {
    type V = StatusMessageView;

    closed spec fn view(&self) -> StatusMessageView {
        StatusMessageView { text: self.text@, kind: self.kind }
    }
}

/// The colour in which a category of status is drawn.
pub open spec fn kind_style(kind: StatusKind) -> SpanStyle {
    match kind {
        StatusKind::Info => SpanStyle::Green,
        StatusKind::Error => SpanStyle::Red,
        StatusKind::Warning => SpanStyle::Yellow,
    }
}

impl StatusMessageView {
    /// The message as it is drawn on the status line.
    pub open spec fn as_span(self) -> SpanView {
        SpanView { content: self.text, style: kind_style(self.kind) }
    }
}

impl StatusMessage {
    /// A message that reports something done.
    pub fn info(text: String) -> (message: Self)
        ensures
            message@ == (StatusMessageView { text: text@, kind: StatusKind::Info }),
    {
        Self { text, kind: StatusKind::Info }
    }

    /// A message that reports a failure.
    pub fn error(text: String) -> (message: Self)
        ensures
            message@ == (StatusMessageView { text: text@, kind: StatusKind::Error }),
    {
        Self { text, kind: StatusKind::Error }
    }

    /// A message that asks the operator to take care.
    pub fn warning(text: String) -> (message: Self)
        ensures
            message@ == (StatusMessageView { text: text@, kind: StatusKind::Warning }),
    {
        Self { text, kind: StatusKind::Warning }
    }

    /// The characters of the message.
    pub fn text(&self) -> (text: &str)
        ensures
            text@ == self@.text,
    {
        self.text.as_str()
    }

    /// The category of the message.
    pub fn kind(&self) -> (kind: StatusKind)
        ensures
            kind == self@.kind,
    {
        self.kind
    }

    /// The message as a span in the colour of its category: green for
    /// `Info`, red for `Error`, yellow for `Warning`.
    pub fn as_span(&self) -> (span: Span)
        ensures
            span@ == self@.as_span(),
    {
        let style = match self.kind {
            StatusKind::Info => SpanStyle::Green,
            StatusKind::Error => SpanStyle::Red,
            StatusKind::Warning => SpanStyle::Yellow,
        };
        Span { content: self.text.clone(), style }
    }
}

} // verus!
