//! The windows of the editor, the state that each of them keeps, and the
//! effects that a handler asks its caller to perform.

use vstd::prelude::*;
use crate::json::{error_text, json_model, json_parse, parse, Json};
use crate::text::same_text;

pub mod add_element;
pub mod editor;
pub mod remove_element;

verus! {

/// A window of the application.
#[derive(Clone, Copy, Debug, PartialEq, Eq, Structural)]
pub enum Window {
    /// The main window, which shows the document.
    Editor,
    /// The satellite window that adds an element.
    AddElement,
    /// The satellite window that removes an element.
    RemoveElement,
}

/// A mode of the editor's user interface.
#[derive(Clone, Copy, Debug, PartialEq, Eq, Structural)]
pub enum EditorContext {
    ReadOnly,
    LayoutEdit,
    ElementEdit,
}

/// What a handler asks its caller to do once the state has been changed and
/// every lock released. Nothing waits for an effect to complete.
#[derive(Clone, Copy, Debug, PartialEq, Eq, Structural)]
pub enum Effect {
    /// Push the current state to a window.
    Notify(Window),
    /// Bring a window to the front; if it is not open, run its builder.
    Show(Window),
    /// Create a window and listen to its events.
    Build(Window),
    /// Ask the user for a file to open.
    PickFileToOpen,
    /// Ask the user for a file to save to.
    PickFileToSave,
    /// Write the document to its backing file.
    WriteDocument,
    /// Tell the editor's user interface to switch its mode.
    SwitchContext(EditorContext),
    /// Print the document to the log.
    LogDocument,
    /// Report that there is nothing to undo.
    NothingToUndo,
    /// Report that there is nothing to redo.
    NothingToRedo,
    /// Report an action that is not recognised; nothing else is done.
    Unrecognized,
    /// Read the recovery string and the document that it names, and hand
    /// both to the recovery of the application's state.
    Recover,
    /// Keep the recovery string for the next start.
    StoreRecovery,
}

/// Why an event was dropped.
#[derive(Debug, PartialEq, Eq)]
pub enum EventError {
    /// The event carried no payload.
    EmptyPayload,
    /// The payload is no JSON text, or not the JSON object that the event
    /// calls for. The text says why.
    DecodeError(String),
}

/// Why an event was dropped, as a mathematical value.
pub ghost enum EventErrorView {
    EmptyPayload,
    DecodeError(Seq<char>),
}

impl View for EventError {
    type V = EventErrorView;

    open spec fn view(&self) -> EventErrorView {
        match *self {
            EventError::EmptyPayload => EventErrorView::EmptyPayload,
            EventError::DecodeError(text) => EventErrorView::DecodeError(text@),
        }
    }
}

/// What the payload of an event holds: the content of its JSON text. An
/// event without a payload has an empty payload; a payload that is no JSON
/// text gives a decode error with the parser's message.
pub open spec fn payload_content(payload: Option<&str>) -> Result<Json, EventErrorView> {
    match payload {
        Some(text) => match json_parse(text@) {
            Ok(content) => Ok(content),
            Err(message) => Err(EventErrorView::DecodeError(message)),
        },
        None => Err(EventErrorView::EmptyPayload),
    }
}

/// The message of the decode error for a payload that is JSON but not the
/// object that an event calls for.
pub open spec fn not_an_object() -> Seq<char> {
    "the payload is not an object"@
}

/// Reads the payload of an event as JSON.
pub fn read_payload(payload: Option<&str>) -> (res: Result<serde_json::Value, EventError>)
    ensures
        match payload_content(payload) {
            Ok(content) => res matches Ok(v) && json_model(v) == content,
            Err(e) => res matches Err(f) && f@ == e,
        },
{
    let text = match payload {
        Some(t) => t,
        None => {
            return Err(EventError::EmptyPayload);
        },
    };
    match parse(text) {
        Ok(v) => Ok(v),
        Err(e) => Err(EventError::DecodeError(error_text(&e))),
    }
}

/// The decode error for a payload that is not an object.
pub fn not_an_object_error() -> (res: EventError)
    ensures
        res@ == EventErrorView::DecodeError(not_an_object()),
{
    EventError::DecodeError("the payload is not an object".to_owned())
}

/// What the windowing system reports of a window.
#[derive(Clone, Copy, Debug, PartialEq, Eq, Structural)]
pub enum WindowEvent {
    /// The window gained or lost the focus.
    Focused(bool),
    /// The user asked to close the window.
    CloseRequested,
    /// Anything else.
    Other,
}

/// The label under which the windowing system knows a window.
pub open spec fn window_label(window: Window) -> Seq<char> {
    match window {
        Window::Editor => "main"@,
        Window::AddElement => "add_element"@,
        Window::RemoveElement => "remove_element"@,
    }
}

/// The name under which the user interface knows a switch to a mode.
pub open spec fn context_switch_name(context: EditorContext) -> Seq<char> {
    match context {
        EditorContext::ReadOnly => "readOnly-switch"@,
        EditorContext::LayoutEdit => "layoutEdit-switch"@,
        EditorContext::ElementEdit => "elementEdit-switch"@,
    }
}

/// The window that a label names.
pub open spec fn window_of(label: Seq<char>) -> Option<Window> {
    if label == "main"@ {
        Some(Window::Editor)
    } else if label == "add_element"@ {
        Some(Window::AddElement)
    } else if label == "remove_element"@ {
        Some(Window::RemoveElement)
    } else {
        None
    }
}

/// A window is found again by its label.
pub proof fn lemma_window_of_label(window: Window)
    ensures
        window_of(window_label(window)) == Some(window),
{
    reveal_strlit("main");
    reveal_strlit("add_element");
    reveal_strlit("remove_element");
    assert("add_element"@.len() != "main"@.len());
    assert("remove_element"@.len() != "main"@.len());
    assert("remove_element"@.len() != "add_element"@.len());
}

impl Window {
    /// The window that a label names, if it names one.
    pub fn from_label(label: &str) -> (res: Option<Window>)
        ensures
            res == window_of(label@),
    {
        if same_text(label, "main") {
            Some(Window::Editor)
        } else if same_text(label, "add_element") {
            Some(Window::AddElement)
        } else if same_text(label, "remove_element") {
            Some(Window::RemoveElement)
        } else {
            None
        }
    }

    /// The window's label.
    pub fn label(self) -> (res: &'static str)
        ensures
            res@ == window_label(self),
    {
        match self {
            Window::Editor => "main",
            Window::AddElement => "add_element",
            Window::RemoveElement => "remove_element",
        }
    }
}

impl EditorContext {
    /// The name of the switch to this mode.
    pub fn switch_name(self) -> (res: &'static str)
        ensures
            res@ == context_switch_name(self),
    {
        match self {
            EditorContext::ReadOnly => "readOnly-switch",
            EditorContext::LayoutEdit => "layoutEdit-switch",
            EditorContext::ElementEdit => "elementEdit-switch",
        }
    }
}

} // verus!
