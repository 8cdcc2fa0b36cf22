//! The add-element window: the id that the user proposes, whether it can be
//! used, and the handlers of the window's events.

use vstd::prelude::*;
use crate::character_data::{
    is_lowest_unoccupied_row, lowest_unoccupied_row, CharacterDataCommand, CommandError,
    DocumentView,
};
use crate::json::{
    as_int, as_text, empty_object, flag_value, is_object, json_model, member, no_fields,
    object_value, set_member, text_value, Json,
};
use crate::placement::{ElementGhost, GeometryKey, Placement, PlacementPatch};
use crate::windows::editor::EditorStateSync;
use crate::windows::{
    not_an_object, not_an_object_error, payload_content, read_payload, Effect, EventError,
    EventErrorView, Window, WindowEvent,
};

verus! {

/// The state of the add-element window.
#[derive(Debug, PartialEq, Eq)]
pub struct AddElementState {
    /// The id that the user proposes for the new element.
    pub id: String,
    /// Whether an element can be added under that id.
    pub is_active: bool,
}

/// The window's state as a mathematical value.
pub ghost struct AddElementStateView {
    pub id: Seq<char>,
    pub is_active: bool,
}

impl View for AddElementState {
    type V = AddElementStateView;

    open spec fn view(&self) -> AddElementStateView {
        AddElementStateView { id: self.id@, is_active: self.is_active }
    }
}

impl Clone for AddElementState {
    fn clone(&self) -> (res: AddElementState)
        ensures
            res@ == self@,
    {
        AddElementState { id: self.id.clone(), is_active: self.is_active }
    }
}

/// The JSON members that stand for a window state beside a placement preview.
pub open spec fn state_fields(state: AddElementStateView, preview: Placement) -> Map<
    Seq<char>,
    Json,
> {
    no_fields().insert("placement"@, Json::Object(preview.fields())).insert(
        "id"@,
        Json::Text(state.id),
    ).insert("is_active"@, Json::Bool(state.is_active))
}

impl AddElementState {
    /// The state of a window that was just opened: no id, not active.
    pub fn new() -> (res: AddElementState)
        ensures
            res@ == (AddElementStateView { id: Seq::empty(), is_active: false }),
    {
        AddElementState { id: String::new(), is_active: false }
    }

    /// The JSON object that the window is sent: the placement preview under
    /// `placement`, the id under `id` and the flag under `is_active`.
    pub fn as_value(&self, ghost: &ElementGhost) -> (res: serde_json::Value)
        ensures
            json_model(res) == Json::Object(state_fields(self@, ghost@)),
    {
        let mut object = empty_object();
        set_member(
            &mut object,
            "placement".to_owned(),
            object_value(ghost.get_placement_as_map()),
        );
        set_member(&mut object, "id".to_owned(), text_value(self.id.clone()));
        set_member(&mut object, "is_active".to_owned(), flag_value(self.is_active));
        object_value(object)
    }
}

/// What a change request asks for: a new id, new values for some keys of the
/// placement preview, both or neither.
#[derive(Debug, PartialEq, Eq)]
pub struct ChangeRequest {
    pub id: Option<String>,
    pub placement: Option<PlacementPatch>,
}

/// A change request as a mathematical value.
pub ghost struct ChangeRequestView {
    pub id: Option<Seq<char>>,
    pub placement: Option<PlacementPatch>,
}

impl View for ChangeRequest {
    type V = ChangeRequestView;

    open spec fn view(&self) -> ChangeRequestView {
        ChangeRequestView {
            id: match self.id {
                Some(s) => Some(s@),
                None => None,
            },
            placement: self.placement,
        }
    }
}

/// The integer under a key of a JSON object, where the object has the key
/// and its value is an integer that fits in `i64`.
pub open spec fn int_field(fields: Map<Seq<char>, Json>, key: Seq<char>) -> Option<i64> {
    if fields.contains_key(key) {
        match fields[key] {
            Json::Int(i) if i64::MIN <= i <= i64::MAX => Some(i as i64),
            _ => None,
        }
    } else {
        None
    }
}

/// The placement keys that a JSON object carries.
pub open spec fn patch_of(fields: Map<Seq<char>, Json>) -> PlacementPatch {
    PlacementPatch {
        x: int_field(fields, "x"@),
        y: int_field(fields, "y"@),
        w: int_field(fields, "w"@),
        h: int_field(fields, "h"@),
    }
}

/// The request that a payload carries: its `id` where that is a string, its
/// `placement` where that is an object. A payload that is no object carries
/// no request.
pub open spec fn change_request_of(payload: Json) -> Option<ChangeRequestView> {
    match payload {
        Json::Object(fields) => Some(
            ChangeRequestView {
                id: if fields.contains_key("id"@) {
                    match fields["id"@] {
                        Json::Text(s) => Some(s),
                        _ => None,
                    }
                } else {
                    None
                },
                placement: if fields.contains_key("placement"@) {
                    match fields["placement"@] {
                        Json::Object(inner) => Some(patch_of(inner)),
                        _ => None,
                    }
                } else {
                    None
                },
            },
        ),
        _ => None,
    }
}

/// The state after a change request: a requested id replaces the id, and the
/// flag says whether that id is available in the document. Without a
/// document no id is available. A request without an id changes nothing.
pub open spec fn state_after_request(
    state: AddElementStateView,
    document: Option<DocumentView>,
    request: ChangeRequestView,
) -> AddElementStateView {
    match request.id {
        Some(id) => AddElementStateView {
            id,
            is_active: match document {
                Some(d) => d.id_available(id),
                None => false,
            },
        },
        None => state,
    }
}

/// The preview after a change request: the requested keys are merged in.
pub open spec fn preview_after_request(preview: Placement, request: ChangeRequestView) -> Placement {
    match request.placement {
        Some(patch) => preview.merged(patch),
        None => preview,
    }
}

/// The current document of an editor, where there is one.
pub open spec fn document_of(editor: Option<&EditorStateSync>) -> Option<DocumentView> {
    match editor {
        Some(e) => Some(e@.current),
        None => None,
    }
}

/// Reads the integer under a key of a JSON value.
fn read_int(v: &serde_json::Value, key: &str) -> (res: Option<i64>)
    requires
        json_model(*v) is Object,
    ensures
        res == int_field(json_model(*v)->Object_0, key@),
{
    match member(v, key) {
        Some(m) => as_int(m),
        None => None,
    }
}

/// Reads the placement keys of a JSON object.
fn read_patch(v: &serde_json::Value) -> (res: PlacementPatch)
    requires
        json_model(*v) is Object,
    ensures
        res == patch_of(json_model(*v)->Object_0),
{
    PlacementPatch {
        x: read_int(v, "x"),
        y: read_int(v, "y"),
        w: read_int(v, "w"),
        h: read_int(v, "h"),
    }
}

/// Reads the request that a payload carries.
pub fn decode_change_request(payload: &serde_json::Value) -> (res: Option<ChangeRequest>)
    ensures
        match change_request_of(json_model(*payload)) {
            Some(request) => res matches Some(r) && r@ == request,
            None => res is None,
        },
{
    if !is_object(payload) {
        return None;
    }
    let id: Option<String> = match member(payload, "id") {
        Some(m) => match as_text(m) {
            Some(s) => Some(s.to_owned()),
            None => None,
        },
        None => None,
    };
    let placement: Option<PlacementPatch> = match member(payload, "placement") {
        Some(m) => if is_object(m) {
            Some(read_patch(m))
        } else {
            None
        },
        None => None,
    };
    Some(ChangeRequest { id, placement })
}

/// True when an element can be added to the editor's document under the id.
/// Without an editor no id is available.
pub fn check_id_availability(editor: Option<&EditorStateSync>, id: &str) -> (res: bool)
    ensures
        res == match document_of(editor) {
            Some(d) => d.id_available(id@),
            None => false,
        },
{
    match editor {
        Some(st) => st.data().check_id(id),
        None => false,
    }
}

/// The effect that pushes new data to the add-element window.
pub fn update_window() -> (res: Effect)
    ensures
        res == Effect::Notify(Window::AddElement),
{
    Effect::Notify(Window::AddElement)
}

/// The add-element window's state, as the application holds it.
#[derive(Debug, PartialEq, Eq)]
pub struct AddElementStateSync {
    state: AddElementState,
}

impl View for AddElementStateSync {
    type V = AddElementStateView;

    closed spec fn view(&self) -> AddElementStateView {
        self.state@
    }
}

impl Clone for AddElementStateSync {
    fn clone(&self) -> (res: AddElementStateSync)
        ensures
            res@ == self@,
    {
        AddElementStateSync { state: self.state.clone() }
    }
}

impl AddElementStateSync {
    /// The state of a window that was just opened.
    pub fn new() -> (res: AddElementStateSync)
        ensures
            res@ == (AddElementStateView { id: Seq::empty(), is_active: false }),
    {
        AddElementStateSync { state: AddElementState::new() }
    }

    /// The JSON object that the window is sent.
    pub fn as_value(&self, ghost: &ElementGhost) -> (res: serde_json::Value)
        ensures
            json_model(res) == Json::Object(state_fields(self@, ghost@)),
    {
        self.state.as_value(ghost)
    }

    /// A copy of the state.
    pub fn get_cloned_state(&self) -> (res: AddElementState)
        ensures
            res@ == self@,
    {
        self.state.clone()
    }

    /// Replaces the state. The window is to be notified every time, also
    /// when the new state equals the old one.
    pub fn set_new_state(&mut self, new_state: AddElementState) -> (res: Effect)
        ensures
            final(self)@ == new_state@,
            res == Effect::Notify(Window::AddElement),
    {
        self.state = new_state;
        update_window()
    }

    /// Marks the id as not usable and keeps the id.
    pub fn set_inactive(&mut self) -> (res: Effect)
        ensures
            final(self)@ == (AddElementStateView { is_active: false, ..old(self)@ }),
            res == Effect::Notify(Window::AddElement),
    {
        let mut new_state = self.state.clone();
        new_state.is_active = false;
        self.set_new_state(new_state)
    }

    /// Moves the placement preview to the lowest unoccupied row of the
    /// editor's document: `y` becomes that row, and `x`, `w` and `h` stay.
    /// Without an editor the preview stays as it is.
    pub fn set_to_unnocupied_space(&self, editor: Option<&EditorStateSync>, ghost: &mut ElementGhost)
        ensures
            match document_of(editor) {
                Some(d) => is_lowest_unoccupied_row(d.grid(), final(ghost)@.y) && final(ghost)@
                    == old(ghost)@.with(GeometryKey::Y, final(ghost)@.y),
                None => final(ghost)@ == old(ghost)@,
            },
    {
        match editor {
            None => {},
            Some(st) => {
                let grid = st.data().get_grid();
                let lowest_row = lowest_unoccupied_row(&grid);
                ghost.set(GeometryKey::Y, lowest_row);
            },
        }
    }
}

/// Applies a change request: a requested id becomes the window's id, and
/// the flag then says whether that id is available; requested placement keys
/// are merged into the preview. The window is notified once.
pub fn apply_change_request(
    state: &mut AddElementStateSync,
    editor: Option<&EditorStateSync>,
    ghost: &mut ElementGhost,
    request: ChangeRequest,
) -> (res: Effect)
    ensures
        final(state)@ == state_after_request(old(state)@, document_of(editor), request@),
        final(ghost)@ == preview_after_request(old(ghost)@, request@),
        res == Effect::Notify(Window::AddElement),
{
    let mut data = state.get_cloned_state();
    match request.id {
        Some(id) => {
            data.is_active = check_id_availability(editor, id.as_str());
            data.id = id;
        },
        None => {},
    }
    match request.placement {
        Some(patch) => ghost.update_placement(patch),
        None => {},
    }
    state.set_new_state(data)
}

/// The request that the payload of a change event carries, or the error
/// with which the event is dropped: the payload is missing, is no JSON text,
/// or is JSON but no object.
pub open spec fn payload_request(payload: Option<&str>) -> Result<
    ChangeRequestView,
    EventErrorView,
> {
    match payload_content(payload) {
        Ok(content) => match change_request_of(content) {
            Some(request) => Ok(request),
            None => Err(EventErrorView::DecodeError(not_an_object())),
        },
        Err(e) => Err(e),
    }
}

/// Handles a change event of the add-element window. A payload that carries
/// a request is applied and the window is notified once. An event without a
/// payload, or with one that is no JSON object, is dropped with an error and
/// changes nothing.
pub fn on_change_state_event(
    state: &mut AddElementStateSync,
    editor: Option<&EditorStateSync>,
    ghost: &mut ElementGhost,
    payload: Option<&str>,
) -> (res: Result<Effect, EventError>)
    ensures
        match payload_request(payload) {
            Ok(request) => res == Ok::<Effect, EventError>(Effect::Notify(Window::AddElement))
                && final(state)@ == state_after_request(old(state)@, document_of(editor), request)
                && final(ghost)@ == preview_after_request(old(ghost)@, request),
            Err(e) => (res matches Err(f) && f@ == e) && final(state)@ == old(state)@
                && final(ghost)@ == old(ghost)@,
        },
{
    let content = match read_payload(payload) {
        Ok(v) => v,
        Err(e) => {
            return Err(e);
        },
    };
    match decode_change_request(&content) {
        Some(request) => Ok(apply_change_request(state, editor, ghost, request)),
        None => Err(not_an_object_error()),
    }
}

/// What came of an attempt to add an element.
#[derive(Debug, PartialEq, Eq)]
pub struct AddOutcome {
    /// Why the command was rejected, if it was.
    pub rejection: Option<CommandError>,
    /// What the caller is to do, in order.
    pub effects: Vec<Effect>,
}

/// The rejection, if any, in the outcome of a command.
pub open spec fn rejection_of(command: Result<DocumentView, CommandError>) -> Option<
    CommandError,
> {
    match command {
        Ok(_) => None,
        Err(e) => Some(e),
    }
}

/// The notifications after an element was added: the editor, then the
/// add-element window.
pub open spec fn add_effects() -> Seq<Effect> {
    seq![Effect::Notify(Window::Editor), Effect::Notify(Window::AddElement)]
}

/// Adds an element with the window's id at the previewed placement. Where
/// the command is committed, the preview moves to the lowest unoccupied row,
/// the window becomes inactive, and the editor and the window are notified.
/// Where it is rejected, the rejection is reported and nothing changes:
/// document, history, window state and preview stay as they were, and no
/// window is notified.
pub fn add_new_element(
    state: &mut AddElementStateSync,
    editor: &mut EditorStateSync,
    ghost: &mut ElementGhost,
    element_data: Option<serde_json::Value>,
) -> (res: AddOutcome)
    requires
        old(editor).wf(),
    ensures
        final(editor).wf(),
        final(editor)@ == old(editor)@.changed(
            old(editor)@.current.added(element_data, old(state)@.id, old(ghost)@),
        ),
        res.rejection == rejection_of(
            old(editor)@.current.added(element_data, old(state)@.id, old(ghost)@),
        ),
        res.rejection is None ==> final(state)@ == (AddElementStateView {
            is_active: false,
            ..old(state)@
        }),
        res.rejection is None ==> is_lowest_unoccupied_row(
            final(editor)@.current.grid(),
            final(ghost)@.y,
        ),
        res.rejection is None ==> final(ghost)@ == old(ghost)@.with(
            GeometryKey::Y,
            final(ghost)@.y,
        ),
        res.rejection is None ==> res.effects@ == add_effects(),
        res.rejection is Some ==> final(state)@ == old(state)@ && final(ghost)@ == old(ghost)@
            && final(editor)@ == old(editor)@ && res.effects@ == Seq::<Effect>::empty(),
{
    let id = state.get_cloned_state().id;
    let old_editor_data = editor.get_data();
    let placement = ghost.get_placement();
    let add = CharacterDataCommand::add_element(old_editor_data, element_data, id, placement);
    match editor.change_data(add) {
        Ok(effect) => {
            let mut effects: Vec<Effect> = Vec::new();
            effects.push(effect);
            state.set_to_unnocupied_space(Some(&*editor), ghost);
            effects.push(state.set_inactive());
            assert(effects@ =~= add_effects());
            AddOutcome { rejection: None, effects }
        },
        Err(e) => AddOutcome { rejection: Some(e), effects: Vec::new() },
    }
}

/// The element data that the payload of an add event carries: the JSON
/// object that it holds, if it holds one.
pub open spec fn payload_object(payload: Option<&str>) -> Option<Json> {
    match payload_content(payload) {
        Ok(content) if content is Object => Some(content),
        _ => None,
    }
}

/// Handles the add event of the add-element window: reads the element data
/// from the payload and adds the element. A payload that is missing or is no
/// JSON object counts as malformed element data. A rejected add is reported
/// and changes nothing.
pub fn on_add_new_element_event(
    state: &mut AddElementStateSync,
    editor: &mut EditorStateSync,
    ghost: &mut ElementGhost,
    payload: Option<&str>,
) -> (res: AddOutcome)
    requires
        old(editor).wf(),
    ensures
        final(editor).wf(),
        !old(editor)@.current.id_available(old(state)@.id) ==> res.rejection == Some(
            CommandError::DuplicateId,
        ),
        old(editor)@.current.id_available(old(state)@.id) && payload_object(payload) is None
            ==> res.rejection == Some(CommandError::MalformedPayload),
        res.rejection is Some ==> final(editor)@ == old(editor)@ && final(state)@ == old(state)@
            && final(ghost)@ == old(ghost)@ && res.effects@ == Seq::<Effect>::empty(),
        old(editor)@.current.id_available(old(state)@.id) && payload_object(payload) is Some ==> {
            let added = final(editor)@.current.elements.last();
            &&& res.rejection is None
            &&& res.effects@ == add_effects()
            &&& final(editor)@.current.elements.len() == old(editor)@.current.elements.len() + 1
            &&& added.id == old(state)@.id
            &&& added.placement == old(ghost)@
            &&& Some(json_model(added.payload)) == payload_object(payload)
            &&& final(editor)@ == old(editor)@.committed(
                old(editor)@.current.with_element(added),
            )
            &&& final(state)@ == (AddElementStateView { is_active: false, ..old(state)@ })
            &&& is_lowest_unoccupied_row(final(editor)@.current.grid(), final(ghost)@.y)
            &&& final(ghost)@ == old(ghost)@.with(GeometryKey::Y, final(ghost)@.y)
        },
{
    let element_data: Option<serde_json::Value> = match read_payload(payload) {
        Ok(v) => if is_object(&v) {
            Some(v)
        } else {
            None
        },
        Err(_) => None,
    };
    add_new_element(state, editor, ghost, element_data)
}

/// The add-element window.
pub struct AddElementWindow {}

impl AddElementWindow {
    /// The window's label.
    pub fn label() -> (res: &'static str)
        ensures
            res@ == "add_element"@,
    {
        "add_element"
    }

    /// Prepares the window: makes its state, moves the placement preview to
    /// the lowest unoccupied row, and asks for the window to be created.
    pub fn builder(editor: Option<&EditorStateSync>, ghost: &mut ElementGhost) -> (res: (
        AddElementStateSync,
        Effect,
    ))
        ensures
            res.0@ == (AddElementStateView { id: Seq::empty(), is_active: false }),
            res.1 == Effect::Build(Window::AddElement),
            match document_of(editor) {
                Some(d) => is_lowest_unoccupied_row(d.grid(), final(ghost)@.y) && final(ghost)@
                    == old(ghost)@.with(GeometryKey::Y, final(ghost)@.y),
                None => final(ghost)@ == old(ghost)@,
            },
    {
        let state = AddElementStateSync::new();
        state.set_to_unnocupied_space(editor, ghost);
        (state, Effect::Build(Window::AddElement))
    }

    /// The window reacts to nothing that the windowing system reports.
    pub fn run_event_handler(event: WindowEvent) -> (res: Option<Effect>)
        ensures
            res is None,
    {
        match event {
            WindowEvent::Focused(true) => None,
            WindowEvent::CloseRequested => None,
            _ => None,
        }
    }
}

} // verus!
