use sheet_editor::app_state::{
    app_state_to_recovery_string, load_app_state_from_recovery_string, LoadedShortcuts, PressedKey,
};
use sheet_editor::character_data::{CharacterData, CharacterDataCommand};
use sheet_editor::events::{
    log_tauri_error, menu_action, menu_event_handler, on_keypress_event, perform,
    run_event_handler, shortcut_action, shortcut_handler, window_event_handler, Action, RunEvent,
};
use sheet_editor::menu::{
    generate_app_menu, menu_handler, open_character_sheet, save_as_character_sheet,
    save_character_sheet, FileOutcome, MenuEntry, MenuItem, OpenedFile,
};
use sheet_editor::placement::Placement;
use sheet_editor::windows::editor::EditorStateSync;
use sheet_editor::windows::{EditorContext, Effect, EventError, Window, WindowEvent};

fn chord(ctrl: bool, alt: bool, shift: bool, key: &str) -> PressedKey {
    PressedKey { ctrl, alt, shift, key: key.to_string() }
}

fn table() -> LoadedShortcuts {
    let mut t = LoadedShortcuts::new();
    t.add_entry(chord(true, false, false, "s"), "save".to_string());
    t.add_entry(chord(true, false, false, "z"), "undo".to_string());
    t.add_entry(chord(true, false, true, "z"), "redo".to_string());
    t.add_entry(chord(true, false, false, "e"), "open-add".to_string());
    t.add_entry(chord(true, false, false, "r"), "open-rem".to_string());
    t.add_entry(chord(false, true, false, "1"), "mod1".to_string());
    t.add_entry(chord(false, true, false, "2"), "mod2".to_string());
    t.add_entry(chord(false, true, false, "3"), "mod3".to_string());
    t.add_entry(chord(false, true, false, "9"), "dance".to_string());
    t.add_entry(chord(true, false, false, "s"), "undo".to_string());
    t
}

fn doc_with(ids: &[&str]) -> CharacterData {
    let mut doc = CharacterData::generate_empty();
    for id in ids {
        let payload: serde_json::Value = serde_json::from_str("{}").unwrap();
        doc.add(Some(payload), id.to_string(), Placement { x: 0, y: 0, w: 1, h: 1 }).unwrap();
    }
    doc
}

fn editor_after_commits(ids: &[&str]) -> EditorStateSync {
    let mut editor = EditorStateSync::new();
    for id in ids {
        let payload: serde_json::Value = serde_json::from_str("{}").unwrap();
        let command = CharacterDataCommand::add_element(
            editor.get_data(),
            Some(payload),
            id.to_string(),
            Placement { x: 0, y: 0, w: 1, h: 1 },
        );
        editor.change_data(command).unwrap();
    }
    editor
}

#[test]
fn menu_ids_name_their_actions() {
    assert_eq!(menu_action("open"), Some(Action::Open));
    assert_eq!(menu_action("save"), Some(Action::Save));
    assert_eq!(menu_action("save as"), Some(Action::SaveAs));
    assert_eq!(menu_action("new"), Some(Action::New));
    assert_eq!(menu_action("undo"), Some(Action::Undo));
    assert_eq!(menu_action("redo"), Some(Action::Redo));
    assert_eq!(menu_action("add_element"), Some(Action::OpenAddWindow));
    assert_eq!(menu_action("remove_element"), Some(Action::OpenRemoveWindow));
    assert_eq!(menu_action("readonly_switch"), Some(Action::ReadOnlySwitch));
    assert_eq!(menu_action("layout_switch"), Some(Action::LayoutSwitch));
    assert_eq!(menu_action("element_switch"), Some(Action::ElementSwitch));
    assert_eq!(menu_action("log"), Some(Action::Log));
    assert_eq!(menu_action("Save"), None);
    assert_eq!(menu_action("save_as"), None);
    assert_eq!(menu_action(""), None);
}

#[test]
fn shortcut_names_name_their_actions() {
    assert_eq!(shortcut_action("save"), Some(Action::Save));
    assert_eq!(shortcut_action("undo"), Some(Action::Undo));
    assert_eq!(shortcut_action("redo"), Some(Action::Redo));
    assert_eq!(shortcut_action("open-add"), Some(Action::OpenAddWindow));
    assert_eq!(shortcut_action("open-rem"), Some(Action::OpenRemoveWindow));
    assert_eq!(shortcut_action("mod1"), Some(Action::ReadOnlySwitch));
    assert_eq!(shortcut_action("mod2"), Some(Action::LayoutSwitch));
    assert_eq!(shortcut_action("mod3"), Some(Action::ElementSwitch));
    assert_eq!(shortcut_action("open"), None);
    assert_eq!(shortcut_action("new"), None);
    assert_eq!(shortcut_action("mod4"), None);
}

#[test]
fn actions_that_leave_the_document_alone() {
    let mut editor = editor_after_commits(&["A"]);
    let before = editor.get_data();
    assert_eq!(perform(&mut editor, Action::Open), vec![Effect::PickFileToOpen]);
    assert_eq!(perform(&mut editor, Action::SaveAs), vec![Effect::PickFileToSave]);
    assert_eq!(perform(&mut editor, Action::OpenAddWindow), vec![Effect::Show(Window::AddElement)]);
    assert_eq!(
        perform(&mut editor, Action::OpenRemoveWindow),
        vec![Effect::Show(Window::RemoveElement)]
    );
    assert_eq!(
        perform(&mut editor, Action::ReadOnlySwitch),
        vec![Effect::SwitchContext(EditorContext::ReadOnly)]
    );
    assert_eq!(
        perform(&mut editor, Action::LayoutSwitch),
        vec![Effect::SwitchContext(EditorContext::LayoutEdit)]
    );
    assert_eq!(
        perform(&mut editor, Action::ElementSwitch),
        vec![Effect::SwitchContext(EditorContext::ElementEdit)]
    );
    assert_eq!(perform(&mut editor, Action::Log), vec![Effect::LogDocument]);
    assert_eq!(editor.get_data(), before);
    assert_eq!(editor.undo_depth(), 1);
}

#[test]
fn context_switch_names() {
    assert_eq!(EditorContext::ReadOnly.switch_name(), "readOnly-switch");
    assert_eq!(EditorContext::LayoutEdit.switch_name(), "layoutEdit-switch");
    assert_eq!(EditorContext::ElementEdit.switch_name(), "elementEdit-switch");
}

#[test]
fn save_writes_only_a_document_with_a_path() {
    let mut editor = editor_after_commits(&["A"]);
    assert_eq!(perform(&mut editor, Action::Save), Vec::<Effect>::new());
    assert_eq!(save_character_sheet(&editor), None);
    editor.set_path("sheet.json".to_string());
    assert_eq!(perform(&mut editor, Action::Save), vec![Effect::WriteDocument]);
    assert_eq!(save_character_sheet(&editor), Some(("sheet.json".to_string(), doc_with(&["A"]))));
}

#[test]
fn new_resets_document_path_and_history() {
    let mut editor = editor_after_commits(&["A", "B"]);
    editor.set_path("sheet.json".to_string());
    assert_eq!(menu_event_handler(&mut editor, "new"), vec![Effect::Notify(Window::Editor)]);
    assert_eq!(editor.get_data(), CharacterData::generate_empty());
    assert_eq!(editor.get_path(), "");
    assert_eq!(editor.undo_depth(), 0);
    assert_eq!(editor.redo_depth(), 0);
}

#[test]
fn undo_and_redo_from_the_menu() {
    let mut editor = editor_after_commits(&["A", "B"]);
    assert_eq!(menu_event_handler(&mut editor, "undo"), vec![Effect::Notify(Window::Editor)]);
    assert_eq!(editor.get_data(), doc_with(&["A"]));
    assert_eq!(menu_event_handler(&mut editor, "redo"), vec![Effect::Notify(Window::Editor)]);
    assert_eq!(editor.get_data(), doc_with(&["A", "B"]));
    assert_eq!(menu_event_handler(&mut editor, "redo"), vec![Effect::NothingToRedo]);
    assert_eq!(editor.get_data(), doc_with(&["A", "B"]));
    menu_event_handler(&mut editor, "undo");
    menu_event_handler(&mut editor, "undo");
    assert_eq!(menu_event_handler(&mut editor, "undo"), vec![Effect::NothingToUndo]);
    assert_eq!(editor.get_data(), CharacterData::generate_empty());
}

#[test]
fn unknown_menu_id_is_reported_and_ignored() {
    let mut editor = editor_after_commits(&["A"]);
    assert_eq!(menu_event_handler(&mut editor, "paste"), vec![Effect::Unrecognized]);
    assert_eq!(editor.get_data(), doc_with(&["A"]));
    assert_eq!(editor.undo_depth(), 1);
}

#[test]
fn menu_and_shortcut_run_the_same_operation() {
    let pairs = [
        ("save", chord(true, false, false, "s")),
        ("undo", chord(true, false, false, "z")),
        ("redo", chord(true, false, true, "z")),
        ("add_element", chord(true, false, false, "e")),
        ("remove_element", chord(true, false, false, "r")),
        ("readonly_switch", chord(false, true, false, "1")),
        ("layout_switch", chord(false, true, false, "2")),
        ("element_switch", chord(false, true, false, "3")),
    ];
    let shortcuts = table();
    for (id, key) in pairs {
        let mut by_menu = editor_after_commits(&["A", "B"]);
        by_menu.go_back();
        by_menu.set_path("p.json".to_string());
        let mut by_key = editor_after_commits(&["A", "B"]);
        by_key.go_back();
        by_key.set_path("p.json".to_string());
        let a = menu_event_handler(&mut by_menu, id);
        let b = shortcut_handler(&shortcuts, &mut by_key, &key);
        assert_eq!(a, b);
        assert_eq!(by_menu, by_key);
    }
}

#[test]
fn shortcut_table_lookup() {
    let shortcuts = table();
    assert_eq!(shortcuts.get_entry(&chord(true, false, false, "s")), Some(&"save".to_string()));
    assert_eq!(shortcuts.get_entry(&chord(true, false, true, "z")), Some(&"redo".to_string()));
    assert_eq!(shortcuts.get_entry(&chord(true, false, true, "s")), None);
    assert_eq!(shortcuts.get_entry(&chord(false, false, false, "s")), None);
    assert_eq!(shortcuts.get_entry(&chord(true, false, false, "S")), None);
    assert_eq!(LoadedShortcuts::new().get_entry(&chord(true, false, false, "s")), None);
}

#[test]
fn chord_without_shortcut_does_nothing() {
    let mut editor = editor_after_commits(&["A"]);
    let effects = shortcut_handler(&table(), &mut editor, &chord(false, false, false, "q"));
    assert_eq!(effects, Vec::<Effect>::new());
    assert_eq!(editor.get_data(), doc_with(&["A"]));
}

#[test]
fn shortcut_with_unknown_action_is_reported() {
    let mut editor = editor_after_commits(&["A"]);
    let effects = shortcut_handler(&table(), &mut editor, &chord(false, true, false, "9"));
    assert_eq!(effects, vec![Effect::Unrecognized]);
    assert_eq!(editor.get_data(), doc_with(&["A"]));
}

#[test]
fn pressed_key_from_json() {
    let v: serde_json::Value =
        serde_json::from_str(r#"{"ctrl":true,"alt":false,"shift":true,"key":"z"}"#).unwrap();
    assert_eq!(PressedKey::from_json(&v), chord(true, false, true, "z"));
    let v: serde_json::Value = serde_json::from_str(r#"{"key":"a","alt":true}"#).unwrap();
    assert_eq!(PressedKey::from_json(&v), chord(false, true, false, "a"));
    let v: serde_json::Value = serde_json::from_str(r#"{"ctrl":1,"shift":"true","key":5}"#).unwrap();
    assert_eq!(PressedKey::from_json(&v), chord(false, false, false, ""));
    let v: serde_json::Value = serde_json::from_str("[true]").unwrap();
    assert_eq!(PressedKey::from_json(&v), chord(false, false, false, ""));
    assert!(chord(true, false, false, "s").same(&chord(true, false, false, "s")));
    assert!(!chord(true, false, false, "s").same(&chord(true, true, false, "s")));
    assert_eq!(chord(true, false, false, "s").clone(), chord(true, false, false, "s"));
}

#[test]
fn keypress_event_runs_the_shortcut() {
    let mut editor = editor_after_commits(&["A", "B"]);
    let res = on_keypress_event(&table(), &mut editor, Some(r#"{"ctrl":true,"key":"z"}"#));
    assert_eq!(res, Ok(vec![Effect::Notify(Window::Editor)]));
    assert_eq!(editor.get_data(), doc_with(&["A"]));
    let res =
        on_keypress_event(&table(), &mut editor, Some(r#"{"ctrl":true,"shift":true,"key":"z"}"#));
    assert_eq!(res, Ok(vec![Effect::Notify(Window::Editor)]));
    assert_eq!(editor.get_data(), doc_with(&["A", "B"]));
    let res = on_keypress_event(&table(), &mut editor, Some(r#"{"key":"z"}"#));
    assert_eq!(res, Ok(vec![]));
}

#[test]
fn keypress_event_without_or_with_bad_payload_is_dropped() {
    let mut editor = editor_after_commits(&["A"]);
    assert_eq!(on_keypress_event(&table(), &mut editor, None), Err(EventError::EmptyPayload));
    let message =
        serde_json::from_str::<serde_json::Value>("{\"ctrl\":tru").unwrap_err().to_string();
    assert!(!message.is_empty());
    assert_eq!(
        on_keypress_event(&table(), &mut editor, Some("{\"ctrl\":tru")),
        Err(EventError::DecodeError(message))
    );
    assert_eq!(editor.get_data(), doc_with(&["A"]));
    assert_eq!(editor.undo_depth(), 1);
}

#[test]
fn error_event_line() {
    assert_eq!(log_tauri_error(Some("disk full")), "disk full");
    assert_eq!(log_tauri_error(Some("")), "");
    assert_eq!(log_tauri_error(None), "error happened, somewhere, somehow");
}

#[test]
fn app_menu_layout() {
    let menu = generate_app_menu();
    assert_eq!(
        menu,
        vec![
            MenuEntry::Submenu {
                title: "File",
                items: vec![
                    MenuItem { id: "new", title: "New" },
                    MenuItem { id: "save", title: "Save" },
                    MenuItem { id: "save as", title: "Save As" },
                    MenuItem { id: "open", title: "Open" },
                ],
            },
            MenuEntry::Item(MenuItem { id: "log", title: "Log" }),
            MenuEntry::Item(MenuItem { id: "undo", title: "Undo" }),
            MenuEntry::Item(MenuItem { id: "redo", title: "Redo" }),
        ]
    );
}

#[test]
fn every_app_menu_id_is_handled() {
    for entry in generate_app_menu() {
        let items = match entry {
            MenuEntry::Item(item) => vec![item],
            MenuEntry::Submenu { items, .. } => items,
        };
        for item in items {
            let mut editor = editor_after_commits(&["A"]);
            assert_ne!(menu_handler(&mut editor, item.id), vec![Effect::Unrecognized]);
        }
    }
}

#[test]
fn app_menu_handler_knows_only_its_items() {
    let mut editor = editor_after_commits(&["A", "B"]);
    assert_eq!(menu_handler(&mut editor, "log"), vec![Effect::LogDocument]);
    assert_eq!(menu_handler(&mut editor, "open"), vec![Effect::PickFileToOpen]);
    assert_eq!(menu_handler(&mut editor, "save as"), vec![Effect::PickFileToSave]);
    assert_eq!(menu_handler(&mut editor, "save"), Vec::<Effect>::new());
    assert_eq!(menu_handler(&mut editor, "undo"), vec![Effect::Notify(Window::Editor)]);
    assert_eq!(editor.get_data(), doc_with(&["A"]));
    assert_eq!(menu_handler(&mut editor, "redo"), vec![Effect::Notify(Window::Editor)]);
    assert_eq!(menu_handler(&mut editor, "add_element"), vec![Effect::Unrecognized]);
    assert_eq!(menu_handler(&mut editor, "layout_switch"), vec![Effect::Unrecognized]);
    assert_eq!(menu_handler(&mut editor, "quit"), vec![Effect::Unrecognized]);
    assert_eq!(editor.get_data(), doc_with(&["A", "B"]));
    assert_eq!(menu_handler(&mut editor, "new"), vec![Effect::Notify(Window::Editor)]);
    assert_eq!(editor.get_data(), CharacterData::generate_empty());
}

#[test]
fn open_replaces_document_and_path() {
    let mut editor = editor_after_commits(&["A"]);
    let outcome = open_character_sheet(
        &mut editor,
        OpenedFile::Loaded("hero.json".to_string(), doc_with(&["X", "Y"])),
    );
    assert_eq!(outcome.effects, vec![Effect::Notify(Window::Editor), Effect::Show(Window::Editor)]);
    assert_eq!(outcome.error, None);
    assert_eq!(editor.get_path(), "hero.json");
    assert_eq!(editor.get_data(), doc_with(&["X", "Y"]));
    assert_eq!(editor.undo_depth(), 0);
}

#[test]
fn cancelled_open_changes_and_reports_nothing() {
    let mut editor = editor_after_commits(&["A"]);
    editor.set_path("old.json".to_string());
    let outcome = open_character_sheet(&mut editor, OpenedFile::Cancelled);
    assert_eq!(outcome, FileOutcome { effects: vec![], error: None });
    assert_eq!(editor.get_path(), "old.json");
    assert_eq!(editor.get_data(), doc_with(&["A"]));
    assert_eq!(editor.undo_depth(), 1);
}

#[test]
fn failed_open_is_reported_and_changes_nothing() {
    let mut editor = editor_after_commits(&["A"]);
    editor.set_path("old.json".to_string());
    let failed = OpenedFile::Unreadable("hero.json".to_string(), "no such file".to_string());
    let outcome = open_character_sheet(&mut editor, failed);
    assert_eq!(outcome, FileOutcome { effects: vec![], error: Some("no such file".to_string()) });
    assert_eq!(editor.get_path(), "old.json");
    assert_eq!(editor.get_data(), doc_with(&["A"]));
    assert_eq!(editor.undo_depth(), 1);
}

#[test]
fn save_as_sets_path_after_a_successful_write() {
    let mut editor = editor_after_commits(&["A"]);
    let outcome = save_as_character_sheet(&mut editor, Some("a.json".to_string()), Ok(()));
    assert_eq!(outcome, FileOutcome { effects: vec![Effect::Show(Window::Editor)], error: None });
    assert_eq!(editor.get_path(), "a.json");
    assert_eq!(editor.get_data(), doc_with(&["A"]));
    assert_eq!(editor.undo_depth(), 1);
}

#[test]
fn failed_save_as_is_reported_and_keeps_the_path() {
    let mut editor = editor_after_commits(&["A"]);
    editor.set_path("old.json".to_string());
    let outcome = save_as_character_sheet(
        &mut editor,
        Some("a.json".to_string()),
        Err("disk full".to_string()),
    );
    assert_eq!(
        outcome,
        FileOutcome {
            effects: vec![Effect::Show(Window::Editor)],
            error: Some("disk full".to_string()),
        }
    );
    assert_eq!(editor.get_path(), "old.json");
    assert_eq!(editor.get_data(), doc_with(&["A"]));
    assert_eq!(editor.undo_depth(), 1);
}

#[test]
fn cancelled_save_as_changes_and_reports_nothing() {
    let mut editor = editor_after_commits(&["A"]);
    editor.set_path("old.json".to_string());
    let outcome = save_as_character_sheet(&mut editor, None, Ok(()));
    assert_eq!(outcome, FileOutcome { effects: vec![], error: None });
    let outcome = save_as_character_sheet(&mut editor, None, Err("unused".to_string()));
    assert_eq!(outcome, FileOutcome { effects: vec![], error: None });
    assert_eq!(editor.get_path(), "old.json");
    assert_eq!(editor.get_data(), doc_with(&["A"]));
}

#[test]
fn recovery_string_is_the_path() {
    let mut editor = EditorStateSync::new();
    assert_eq!(app_state_to_recovery_string(&editor), "");
    editor.set_path("/home/u/hero.json".to_string());
    assert_eq!(app_state_to_recovery_string(&editor), "/home/u/hero.json");
}

#[test]
fn recovery_loads_document_or_keeps_state() {
    let mut editor = editor_after_commits(&["A"]);
    assert_eq!(load_app_state_from_recovery_string(&mut editor, "gone.json", None), None);
    assert_eq!(editor.get_path(), "");
    assert_eq!(editor.get_data(), doc_with(&["A"]));
    assert_eq!(editor.undo_depth(), 1);
    let effect =
        load_app_state_from_recovery_string(&mut editor, "hero.json", Some(doc_with(&["H"])));
    assert_eq!(effect, Some(Effect::Notify(Window::Editor)));
    assert_eq!(editor.get_path(), "hero.json");
    assert_eq!(editor.get_data(), doc_with(&["H"]));
    assert_eq!(editor.undo_depth(), 0);
}

#[test]
fn runtime_events() {
    assert_eq!(run_event_handler(&RunEvent::Ready), vec![Effect::Recover]);
    assert_eq!(run_event_handler(&RunEvent::MainEventsCleared), vec![Effect::StoreRecovery]);
    assert_eq!(run_event_handler(&RunEvent::Other), Vec::<Effect>::new());
    for label in ["add_element", "remove_element", "main", "other"] {
        for event in [WindowEvent::Focused(true), WindowEvent::CloseRequested, WindowEvent::Other] {
            assert_eq!(window_event_handler(label, event), None);
            assert_eq!(
                run_event_handler(&RunEvent::WindowEvent(label.to_string(), event)),
                Vec::<Effect>::new()
            );
        }
    }
}

#[test]
fn windows_are_found_by_label() {
    for window in [Window::Editor, Window::AddElement, Window::RemoveElement] {
        assert_eq!(Window::from_label(window.label()), Some(window));
    }
    assert_eq!(Window::from_label("editor"), None);
    assert_eq!(Window::from_label(""), None);
}

#[test]
fn keypress_payload_that_is_no_object_is_the_empty_chord() {
    let mut shortcuts = LoadedShortcuts::new();
    shortcuts.add_entry(chord(false, false, false, ""), "redo".to_string());
    let mut editor = editor_after_commits(&["A"]);
    editor.go_back();
    let res = on_keypress_event(&shortcuts, &mut editor, Some("3"));
    assert_eq!(res, Ok(vec![Effect::Notify(Window::Editor)]));
    assert_eq!(editor.get_data(), doc_with(&["A"]));
    let res = on_keypress_event(&shortcuts, &mut editor, Some(r#"{"key":"q"}"#));
    assert_eq!(res, Ok(vec![]));
}

#[test]
fn first_shortcut_line_for_a_chord_wins() {
    let shortcuts = table();
    let mut editor = editor_after_commits(&["A"]);
    editor.set_path("p.json".to_string());
    let effects = shortcut_handler(&shortcuts, &mut editor, &chord(true, false, false, "s"));
    assert_eq!(effects, vec![Effect::WriteDocument]);
    assert_eq!(editor.undo_depth(), 1);
}
