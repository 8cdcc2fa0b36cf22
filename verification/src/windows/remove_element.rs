//! The remove-element window: the id that the user picked, whether an
//! element has it, and the handlers of the window's events.

use vstd::prelude::*;
use crate::character_data::{CharacterDataCommand, CommandError, DocumentView};
use crate::json::{
    empty_object, flag_value, json_model, no_fields, object_value, set_member, text_value, Json,
};
use crate::windows::add_element::{
    decode_change_request, document_of, payload_request, rejection_of, ChangeRequest,
    ChangeRequestView,
};
use crate::windows::editor::EditorStateSync;
use crate::windows::{not_an_object_error, read_payload, Effect, EventError, Window};

verus! {

/// The state of the remove-element window.
#[derive(Debug, PartialEq, Eq)]
pub struct RemoveElementState {
    /// The id of the element that the user wants to remove.
    pub id: String,
    /// Whether an element has that id.
    pub is_active: bool,
}

/// The window's state as a mathematical value.
pub ghost struct RemoveElementStateView {
    pub id: Seq<char>,
    pub is_active: bool,
}

impl View for RemoveElementState {
    type V = RemoveElementStateView;

    open spec fn view(&self) -> RemoveElementStateView {
        RemoveElementStateView { id: self.id@, is_active: self.is_active }
    }
}

impl Clone for RemoveElementState {
    fn clone(&self) -> (res: RemoveElementState)
        ensures
            res@ == self@,
    {
        RemoveElementState { id: self.id.clone(), is_active: self.is_active }
    }
}

/// The JSON members that stand for a window state.
pub open spec fn removal_fields(state: RemoveElementStateView) -> Map<Seq<char>, Json> {
    no_fields().insert("id"@, Json::Text(state.id)).insert(
        "is_active"@,
        Json::Bool(state.is_active),
    )
}

/// The state after a change request: a requested id replaces the id, and the
/// flag says whether an element of the document has it. Without a document
/// no element has it. A request without an id changes nothing.
pub open spec fn removal_after_request(
    state: RemoveElementStateView,
    document: Option<DocumentView>,
    request: ChangeRequestView,
) -> RemoveElementStateView {
    match request.id {
        Some(id) => RemoveElementStateView {
            id,
            is_active: match document {
                Some(d) => d.has_id(id),
                None => false,
            },
        },
        None => state,
    }
}

/// The notifications after an element was removed: the editor, then the
/// remove-element window.
pub open spec fn remove_effects() -> Seq<Effect> {
    seq![Effect::Notify(Window::Editor), Effect::Notify(Window::RemoveElement)]
}

/// True when an element of the editor's document has the id. Without an
/// editor no element has it.
pub fn check_id_presence(editor: Option<&EditorStateSync>, id: &str) -> (res: bool)
    ensures
        res == match document_of(editor) {
            Some(d) => d.has_id(id@),
            None => false,
        },
{
    match editor {
        Some(st) => st.data().find(id).is_some(),
        None => false,
    }
}

/// What came of an attempt to remove an element.
#[derive(Debug, PartialEq, Eq)]
pub struct RemoveOutcome {
    /// Why the command was rejected, if it was.
    pub rejection: Option<CommandError>,
    /// What the caller is to do, in order.
    pub effects: Vec<Effect>,
}

/// The remove-element window's state, as the application holds it.
#[derive(Debug, PartialEq, Eq)]
pub struct RemoveElementStateSync {
    state: RemoveElementState,
}

impl View for RemoveElementStateSync {
    type V = RemoveElementStateView;

    closed spec fn view(&self) -> RemoveElementStateView {
        self.state@
    }
}

impl Clone for RemoveElementStateSync {
    fn clone(&self) -> (res: RemoveElementStateSync)
        ensures
            res@ == self@,
    {
        RemoveElementStateSync { state: self.state.clone() }
    }
}

impl RemoveElementStateSync {
    /// The state of a window that was just opened: no id, not active.
    pub fn new() -> (res: RemoveElementStateSync)
        ensures
            res@ == (RemoveElementStateView { id: Seq::empty(), is_active: false }),
    {
        RemoveElementStateSync { state: RemoveElementState { id: String::new(), is_active: false } }
    }

    /// The JSON object that the window is sent: the id under `id` and the
    /// flag under `is_active`.
    pub fn as_value(&self) -> (res: serde_json::Value)
        ensures
            json_model(res) == Json::Object(removal_fields(self@)),
    {
        let mut object = empty_object();
        set_member(&mut object, "id".to_owned(), text_value(self.state.id.clone()));
        set_member(&mut object, "is_active".to_owned(), flag_value(self.state.is_active));
        object_value(object)
    }

    /// A copy of the state.
    pub fn get_cloned_state(&self) -> (res: RemoveElementState)
        ensures
            res@ == self@,
    {
        self.state.clone()
    }

    /// Replaces the state. The window is to be notified every time.
    pub fn set_new_state(&mut self, new_state: RemoveElementState) -> (res: Effect)
        ensures
            final(self)@ == new_state@,
            res == Effect::Notify(Window::RemoveElement),
    {
        self.state = new_state;
        Effect::Notify(Window::RemoveElement)
    }

    /// Marks the id as naming no element and keeps the id.
    pub fn set_inactive(&mut self) -> (res: Effect)
        ensures
            final(self)@ == (RemoveElementStateView { is_active: false, ..old(self)@ }),
            res == Effect::Notify(Window::RemoveElement),
    {
        let mut new_state = self.state.clone();
        new_state.is_active = false;
        self.set_new_state(new_state)
    }
}

/// Applies a change request: a requested id becomes the window's id, and
/// the flag then says whether an element has it. A requested placement is
/// of no concern to this window. The window is notified once.
pub fn apply_removal_request(
    state: &mut RemoveElementStateSync,
    editor: Option<&EditorStateSync>,
    request: ChangeRequest,
) -> (res: Effect)
    ensures
        final(state)@ == removal_after_request(old(state)@, document_of(editor), request@),
        res == Effect::Notify(Window::RemoveElement),
{
    let mut data = state.get_cloned_state();
    match request.id {
        Some(id) => {
            data.is_active = check_id_presence(editor, id.as_str());
            data.id = id;
        },
        None => {},
    }
    state.set_new_state(data)
}

/// Handles a change event of the remove-element window. A payload that
/// carries a request is applied and the window is notified once. An event
/// without a payload, or with one that is no JSON object, is dropped with an
/// error and changes nothing.
pub fn on_change_removal_event(
    state: &mut RemoveElementStateSync,
    editor: Option<&EditorStateSync>,
    payload: Option<&str>,
) -> (res: Result<Effect, EventError>)
    ensures
        match payload_request(payload) {
            Ok(request) => res == Ok::<Effect, EventError>(Effect::Notify(Window::RemoveElement))
                && final(state)@ == removal_after_request(
                old(state)@,
                document_of(editor),
                request,
            ),
            Err(e) => (res matches Err(f) && f@ == e) && final(state)@ == old(state)@,
        },
{
    let content = match read_payload(payload) {
        Ok(v) => v,
        Err(e) => {
            return Err(e);
        },
    };
    match decode_change_request(&content) {
        Some(request) => Ok(apply_removal_request(state, editor, request)),
        None => Err(not_an_object_error()),
    }
}

/// Removes the element that has the window's id. Where the command is
/// committed, the window becomes inactive, and the editor and the window are
/// notified. Where it is rejected, the rejection is reported and nothing
/// changes: document, history and window state stay as they were, and no
/// window is notified.
pub fn remove_selected_element(state: &mut RemoveElementStateSync, editor: &mut EditorStateSync) -> (res:
    RemoveOutcome)
    requires
        old(editor).wf(),
    ensures
        final(editor).wf(),
        final(editor)@ == old(editor)@.changed(old(editor)@.current.removed(old(state)@.id)),
        res.rejection == rejection_of(old(editor)@.current.removed(old(state)@.id)),
        res.rejection is None ==> final(state)@ == (RemoveElementStateView {
            is_active: false,
            ..old(state)@
        }) && res.effects@ == remove_effects(),
        res.rejection is Some ==> final(state)@ == old(state)@ && final(editor)@ == old(editor)@
            && res.effects@ == Seq::<Effect>::empty(),
{
    let id = state.get_cloned_state().id;
    let remove = CharacterDataCommand::remove_element(editor.get_data(), id.as_str());
    match editor.change_data(remove) {
        Ok(effect) => {
            let mut effects: Vec<Effect> = Vec::new();
            effects.push(effect);
            effects.push(state.set_inactive());
            assert(effects@ =~= remove_effects());
            RemoveOutcome { rejection: None, effects }
        },
        Err(e) => RemoveOutcome { rejection: Some(e), effects: Vec::new() },
    }
}

/// The remove-element window.
pub struct RemoveElementWindow {}

impl RemoveElementWindow {
    /// The window's label.
    pub fn label() -> (res: &'static str)
        ensures
            res@ == "remove_element"@,
    {
        "remove_element"
    }

    /// Prepares the window: makes its state and asks for the window to be
    /// created.
    pub fn builder() -> (res: (RemoveElementStateSync, Effect))
        ensures
            res.0@ == (RemoveElementStateView { id: Seq::empty(), is_active: false }),
            res.1 == Effect::Build(Window::RemoveElement),
    {
        (RemoveElementStateSync::new(), Effect::Build(Window::RemoveElement))
    }
}

} // verus!
