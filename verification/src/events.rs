//! Dispatch of menu items, shortcuts and keypress events. A menu click and a
//! shortcut that name the same action run the same operation.

use vstd::prelude::*;
use crate::app_state::{action_for, pressed_key_of, LoadedShortcuts, PressedKey};
use crate::character_data::{empty_document, CharacterData};
use crate::text::same_text;
use crate::windows::editor::{EditorStateSync, EditorStateView};
use crate::windows::add_element::AddElementWindow;
use crate::windows::{
    payload_content, read_payload, EditorContext, Effect, EventError, Window, WindowEvent,
};

verus! {

/// An operation that a menu item or a shortcut can ask for.
#[derive(Clone, Copy, Debug, PartialEq, Eq, Structural)]
pub enum Action {
    Open,
    Save,
    SaveAs,
    New,
    Undo,
    Redo,
    OpenAddWindow,
    OpenRemoveWindow,
    ReadOnlySwitch,
    LayoutSwitch,
    ElementSwitch,
    Log,
}

/// The action behind the id of a menu item.
pub open spec fn menu_action_of(id: Seq<char>) -> Option<Action> {
    if id == "open"@ {
        Some(Action::Open)
    } else if id == "save"@ {
        Some(Action::Save)
    } else if id == "save as"@ {
        Some(Action::SaveAs)
    } else if id == "new"@ {
        Some(Action::New)
    } else if id == "undo"@ {
        Some(Action::Undo)
    } else if id == "redo"@ {
        Some(Action::Redo)
    } else if id == "add_element"@ {
        Some(Action::OpenAddWindow)
    } else if id == "remove_element"@ {
        Some(Action::OpenRemoveWindow)
    } else if id == "readonly_switch"@ {
        Some(Action::ReadOnlySwitch)
    } else if id == "layout_switch"@ {
        Some(Action::LayoutSwitch)
    } else if id == "element_switch"@ {
        Some(Action::ElementSwitch)
    } else if id == "log"@ {
        Some(Action::Log)
    } else {
        None
    }
}

/// The action behind an action name of the shortcut table.
pub open spec fn shortcut_action_of(name: Seq<char>) -> Option<Action> {
    if name == "save"@ {
        Some(Action::Save)
    } else if name == "undo"@ {
        Some(Action::Undo)
    } else if name == "redo"@ {
        Some(Action::Redo)
    } else if name == "open-add"@ {
        Some(Action::OpenAddWindow)
    } else if name == "open-rem"@ {
        Some(Action::OpenRemoveWindow)
    } else if name == "mod1"@ {
        Some(Action::ReadOnlySwitch)
    } else if name == "mod2"@ {
        Some(Action::LayoutSwitch)
    } else if name == "mod3"@ {
        Some(Action::ElementSwitch)
    } else {
        None
    }
}

/// The container after an action. Only new, undo and redo touch it.
pub open spec fn state_after(editor: EditorStateView, action: Action) -> EditorStateView {
    match action {
        Action::New => editor.reassociated(Seq::empty(), empty_document()),
        Action::Undo => editor.undone(),
        Action::Redo => editor.redone(),
        _ => editor,
    }
}

/// What the caller is to do after an action, in order.
pub open spec fn effects_of(editor: EditorStateView, action: Action) -> Seq<Effect> {
    match action {
        Action::Open => seq![Effect::PickFileToOpen],
        Action::Save => if editor.unsaved() {
            Seq::empty()
        } else {
            seq![Effect::WriteDocument]
        },
        Action::SaveAs => seq![Effect::PickFileToSave],
        Action::New => seq![Effect::Notify(Window::Editor)],
        Action::Undo => if editor.history.undo.len() > 0 {
            seq![Effect::Notify(Window::Editor)]
        } else {
            seq![Effect::NothingToUndo]
        },
        Action::Redo => if editor.history.redo.len() > 0 {
            seq![Effect::Notify(Window::Editor)]
        } else {
            seq![Effect::NothingToRedo]
        },
        Action::OpenAddWindow => seq![Effect::Show(Window::AddElement)],
        Action::OpenRemoveWindow => seq![Effect::Show(Window::RemoveElement)],
        Action::ReadOnlySwitch => seq![Effect::SwitchContext(EditorContext::ReadOnly)],
        Action::LayoutSwitch => seq![Effect::SwitchContext(EditorContext::LayoutEdit)],
        Action::ElementSwitch => seq![Effect::SwitchContext(EditorContext::ElementEdit)],
        Action::Log => seq![Effect::LogDocument],
    }
}

/// Reads the id of a menu item.
pub fn menu_action(id: &str) -> (res: Option<Action>)
    ensures
        res == menu_action_of(id@),
{
    if same_text(id, "open") {
        Some(Action::Open)
    } else if same_text(id, "save") {
        Some(Action::Save)
    } else if same_text(id, "save as") {
        Some(Action::SaveAs)
    } else if same_text(id, "new") {
        Some(Action::New)
    } else if same_text(id, "undo") {
        Some(Action::Undo)
    } else if same_text(id, "redo") {
        Some(Action::Redo)
    } else if same_text(id, "add_element") {
        Some(Action::OpenAddWindow)
    } else if same_text(id, "remove_element") {
        Some(Action::OpenRemoveWindow)
    } else if same_text(id, "readonly_switch") {
        Some(Action::ReadOnlySwitch)
    } else if same_text(id, "layout_switch") {
        Some(Action::LayoutSwitch)
    } else if same_text(id, "element_switch") {
        Some(Action::ElementSwitch)
    } else if same_text(id, "log") {
        Some(Action::Log)
    } else {
        None
    }
}

/// Reads an action name of the shortcut table.
pub fn shortcut_action(name: &str) -> (res: Option<Action>)
    ensures
        res == shortcut_action_of(name@),
{
    if same_text(name, "save") {
        Some(Action::Save)
    } else if same_text(name, "undo") {
        Some(Action::Undo)
    } else if same_text(name, "redo") {
        Some(Action::Redo)
    } else if same_text(name, "open-add") {
        Some(Action::OpenAddWindow)
    } else if same_text(name, "open-rem") {
        Some(Action::OpenRemoveWindow)
    } else if same_text(name, "mod1") {
        Some(Action::ReadOnlySwitch)
    } else if same_text(name, "mod2") {
        Some(Action::LayoutSwitch)
    } else if same_text(name, "mod3") {
        Some(Action::ElementSwitch)
    } else {
        None
    }
}

/// A list of one effect.
fn only(effect: Effect) -> (res: Vec<Effect>)
    ensures
        res@ == seq![effect],
{
    let mut effects: Vec<Effect> = Vec::new();
    effects.push(effect);
    assert(effects@ =~= seq![effect]);
    effects
}

/// Runs an action on the container and says what the caller is to do. The
/// same function serves menu items and shortcuts.
pub fn perform(editor: &mut EditorStateSync, action: Action) -> (res: Vec<Effect>)
    requires
        old(editor).wf(),
    ensures
        final(editor).wf(),
        final(editor)@ == state_after(old(editor)@, action),
        res@ == effects_of(old(editor)@, action),
{
    match action {
        Action::Open => only(Effect::PickFileToOpen),
        Action::Save => {
            if editor.is_unsaved() {
                Vec::new()
            } else {
                only(Effect::WriteDocument)
            }
        },
        Action::SaveAs => only(Effect::PickFileToSave),
        Action::New => {
            only(editor.change_associated_file(String::new(), CharacterData::generate_empty()))
        },
        Action::Undo => {
            if editor.go_back() {
                only(Effect::Notify(Window::Editor))
            } else {
                only(Effect::NothingToUndo)
            }
        },
        Action::Redo => {
            if editor.go_forward() {
                only(Effect::Notify(Window::Editor))
            } else {
                only(Effect::NothingToRedo)
            }
        },
        Action::OpenAddWindow => only(Effect::Show(Window::AddElement)),
        Action::OpenRemoveWindow => only(Effect::Show(Window::RemoveElement)),
        Action::ReadOnlySwitch => only(Effect::SwitchContext(EditorContext::ReadOnly)),
        Action::LayoutSwitch => only(Effect::SwitchContext(EditorContext::LayoutEdit)),
        Action::ElementSwitch => only(Effect::SwitchContext(EditorContext::ElementEdit)),
        Action::Log => only(Effect::LogDocument),
    }
}

/// Handles a click on a menu item. An id that names no action is reported
/// and changes nothing.
pub fn menu_event_handler(editor: &mut EditorStateSync, id: &str) -> (res: Vec<Effect>)
    requires
        old(editor).wf(),
    ensures
        final(editor).wf(),
        match menu_action_of(id@) {
            Some(action) => final(editor)@ == state_after(old(editor)@, action) && res@
                == effects_of(old(editor)@, action),
            None => final(editor)@ == old(editor)@ && res@ == seq![Effect::Unrecognized],
        },
{
    match menu_action(id) {
        Some(action) => perform(editor, action),
        None => only(Effect::Unrecognized),
    }
}

/// Handles a key chord. A chord that the table does not have does nothing.
/// A chord whose action name names no action is reported and changes nothing.
pub fn shortcut_handler(shortcuts: &LoadedShortcuts, editor: &mut EditorStateSync, key: &PressedKey) -> (res:
    Vec<Effect>)
    requires
        old(editor).wf(),
    ensures
        final(editor).wf(),
        match action_for(shortcuts@, key@) {
            Some(name) => match shortcut_action_of(name) {
                Some(action) => final(editor)@ == state_after(old(editor)@, action) && res@
                    == effects_of(old(editor)@, action),
                None => final(editor)@ == old(editor)@ && res@ == seq![Effect::Unrecognized],
            },
            None => final(editor)@ == old(editor)@ && res@ == Seq::<Effect>::empty(),
        },
{
    let name = match shortcuts.get_entry(key) {
        Some(a) => a,
        None => {
            return Vec::new();
        },
    };
    match shortcut_action(name.as_str()) {
        Some(action) => perform(editor, action),
        None => only(Effect::Unrecognized),
    }
}

/// Handles a keypress event: reads the chord from the payload and runs its
/// shortcut. An event without a payload, or with one that is no JSON text, is
/// dropped with an error and changes nothing.
pub fn on_keypress_event(
    shortcuts: &LoadedShortcuts,
    editor: &mut EditorStateSync,
    payload: Option<&str>,
) -> (res: Result<Vec<Effect>, EventError>)
    requires
        old(editor).wf(),
    ensures
        final(editor).wf(),
        match payload_content(payload) {
            Err(e) => (res matches Err(f) && f@ == e) && final(editor)@ == old(editor)@,
            Ok(content) => res matches Ok(effects) && match action_for(
                shortcuts@,
                pressed_key_of(content),
            ) {
                Some(name) => match shortcut_action_of(name) {
                    Some(action) => final(editor)@ == state_after(old(editor)@, action)
                        && effects@ == effects_of(old(editor)@, action),
                    None => final(editor)@ == old(editor)@ && effects@
                        == seq![Effect::Unrecognized],
                },
                None => final(editor)@ == old(editor)@ && effects@ == Seq::<Effect>::empty(),
            },
        },
{
    let payload_as_json = match read_payload(payload) {
        Ok(p) => p,
        Err(e) => {
            return Err(e);
        },
    };
    let pressed_key = PressedKey::from_json(&payload_as_json);
    Ok(shortcut_handler(shortcuts, editor, &pressed_key))
}

/// What the runtime reports while the application runs.
#[derive(Debug, PartialEq, Eq)]
pub enum RunEvent {
    /// The application is ready.
    Ready,
    /// A window, named by its label, reports an event.
    WindowEvent(String, WindowEvent),
    /// Every pending event has been handled.
    MainEventsCleared,
    /// Anything else.
    Other,
}

/// What the caller is to do after a report of the runtime. When the
/// application is ready its state is recovered; when the events are cleared
/// the recovery string is kept. No window reacts to a window event so far.
pub open spec fn run_effects(event: RunEvent) -> Seq<Effect> {
    match event {
        RunEvent::Ready => seq![Effect::Recover],
        RunEvent::WindowEvent(_, _) => Seq::empty(),
        RunEvent::MainEventsCleared => seq![Effect::StoreRecovery],
        RunEvent::Other => Seq::empty(),
    }
}

/// Handles an event of a window. Only the add-element window has a handler.
pub fn window_event_handler(label: &str, event: WindowEvent) -> (res: Option<Effect>)
    ensures
        res is None,
{
    match Window::from_label(label) {
        Some(Window::AddElement) => AddElementWindow::run_event_handler(event),
        _ => None,
    }
}

/// Handles a report of the runtime.
pub fn run_event_handler(event: &RunEvent) -> (res: Vec<Effect>)
    ensures
        res@ == run_effects(*event),
{
    match event {
        RunEvent::Ready => only(Effect::Recover),
        RunEvent::WindowEvent(label, event) => {
            match window_event_handler(label.as_str(), *event) {
                Some(effect) => only(effect),
                None => Vec::new(),
            }
        },
        RunEvent::MainEventsCleared => only(Effect::StoreRecovery),
        RunEvent::Other => Vec::new(),
    }
}

/// The line to log for an error event: its payload, or a fixed line where it
/// has none.
pub fn log_tauri_error(payload: Option<&str>) -> (res: String)
    ensures
        res@ == (match payload {
            Some(text) => text@,
            None => "error happened, somewhere, somehow"@,
        }),
{
    match payload {
        Some(text) => text.to_owned(),
        None => "error happened, somewhere, somehow".to_owned(),
    }
}

} // verus!
