use sheet_editor::character_data::{CharacterData, CommandError};
use sheet_editor::placement::Placement;
use sheet_editor::windows::add_element::ChangeRequest;
use sheet_editor::windows::editor::EditorStateSync;
use sheet_editor::windows::remove_element::{
    apply_removal_request, check_id_presence, on_change_removal_event, remove_selected_element,
    RemoveElementState, RemoveElementStateSync, RemoveElementWindow,
};
use sheet_editor::windows::{Effect, EventError, Window};

fn editor_holding(ids: &[&str]) -> EditorStateSync {
    let mut doc = CharacterData::with_grid(4, 8);
    for (row, id) in ids.iter().enumerate() {
        let payload: serde_json::Value = serde_json::from_str(r#"{"k":true}"#).unwrap();
        doc.add(Some(payload), id.to_string(), Placement { x: 0, y: row as i64, w: 1, h: 1 })
            .unwrap();
    }
    let mut editor = EditorStateSync::new();
    editor.set_data(doc);
    editor
}

fn removal_state(sync: &RemoveElementStateSync) -> (String, bool) {
    let s = sync.get_cloned_state();
    (s.id, s.is_active)
}

#[test]
fn document_with_grid_keeps_its_size() {
    let editor = editor_holding(&["A"]);
    assert_eq!(editor.get_data().columns(), 4);
    assert_eq!(editor.get_data().rows(), 8);
    assert_eq!(CharacterData::with_grid(-1, 0).len(), 0);
}

#[test]
fn remove_window_starts_inactive() {
    let (state, effect) = RemoveElementWindow::builder();
    assert_eq!(effect, Effect::Build(Window::RemoveElement));
    assert_eq!(removal_state(&state), (String::new(), false));
    assert_eq!(RemoveElementWindow::label(), "remove_element");
}

#[test]
fn remove_state_as_value_holds_id_and_flag() {
    let mut sync = RemoveElementStateSync::new();
    sync.set_new_state(RemoveElementState { id: "hp".to_string(), is_active: true });
    let expected: serde_json::Value =
        serde_json::from_str(r#"{"id":"hp","is_active":true}"#).unwrap();
    assert_eq!(sync.as_value(), expected);
}

#[test]
fn id_presence_needs_an_editor() {
    let editor = editor_holding(&["A"]);
    assert!(check_id_presence(Some(&editor), "A"));
    assert!(!check_id_presence(Some(&editor), "B"));
    assert!(!check_id_presence(Some(&editor), ""));
    assert!(!check_id_presence(None, "A"));
}

#[test]
fn removal_is_active_exactly_for_present_ids() {
    let editor = editor_holding(&["A", "B"]);
    let mut sync = RemoveElementStateSync::new();
    for (payload, id, active) in [
        (r#"{"id":"A"}"#, "A", true),
        (r#"{"id":"C"}"#, "C", false),
        (r#"{"id":""}"#, "", false),
        (r#"{"id":"B","placement":{"x":3}}"#, "B", true),
        (r#"{}"#, "B", true),
    ] {
        let res = on_change_removal_event(&mut sync, Some(&editor), Some(payload));
        assert_eq!(res, Ok(Effect::Notify(Window::RemoveElement)));
        assert_eq!(removal_state(&sync), (id.to_string(), active));
    }
    let effect = apply_removal_request(
        &mut sync,
        None,
        ChangeRequest { id: Some("A".to_string()), placement: None },
    );
    assert_eq!(effect, Effect::Notify(Window::RemoveElement));
    assert_eq!(removal_state(&sync), ("A".to_string(), false));
}

#[test]
fn removal_event_without_or_with_bad_payload_is_dropped() {
    let editor = editor_holding(&["A"]);
    let mut sync = RemoveElementStateSync::new();
    sync.set_new_state(RemoveElementState { id: "A".to_string(), is_active: true });
    assert_eq!(on_change_removal_event(&mut sync, Some(&editor), None), Err(EventError::EmptyPayload));
    let message = serde_json::from_str::<serde_json::Value>("{").unwrap_err().to_string();
    assert_eq!(
        on_change_removal_event(&mut sync, Some(&editor), Some("{")),
        Err(EventError::DecodeError(message))
    );
    for payload in ["[]", "true"] {
        assert_eq!(
            on_change_removal_event(&mut sync, Some(&editor), Some(payload)),
            Err(EventError::DecodeError("the payload is not an object".to_string()))
        );
    }
    assert_eq!(removal_state(&sync), ("A".to_string(), true));
}

#[test]
fn remove_selected_element_commits_and_resets_the_window() {
    let mut editor = editor_holding(&["A", "B", "C"]);
    let mut sync = RemoveElementStateSync::new();
    sync.set_new_state(RemoveElementState { id: "B".to_string(), is_active: true });
    let out = remove_selected_element(&mut sync, &mut editor);
    assert_eq!(out.rejection, None);
    assert_eq!(
        out.effects,
        vec![Effect::Notify(Window::Editor), Effect::Notify(Window::RemoveElement)]
    );
    let doc = editor.get_data();
    assert_eq!(doc.len(), 2);
    assert_eq!(doc.element(0).unwrap().id, "A");
    assert_eq!(doc.element(1).unwrap().id, "C");
    assert_eq!(removal_state(&sync), ("B".to_string(), false));
    assert_eq!(editor.undo_depth(), 1);
    assert!(editor.go_back());
    assert_eq!(editor.get_data().len(), 3);
    assert_eq!(editor.get_data().element(1).unwrap().id, "B");
}

#[test]
fn rejected_remove_is_reported_and_changes_nothing() {
    let mut editor = editor_holding(&["A"]);
    let before = editor.get_data();
    let mut sync = RemoveElementStateSync::new();
    sync.set_new_state(RemoveElementState { id: "Z".to_string(), is_active: true });
    let out = remove_selected_element(&mut sync, &mut editor);
    assert_eq!(out.rejection, Some(CommandError::UnknownId));
    assert_eq!(out.effects, Vec::<Effect>::new());
    assert_eq!(editor.get_data(), before);
    assert_eq!(editor.undo_depth(), 0);
    assert_eq!(removal_state(&sync), ("Z".to_string(), true));
    assert_eq!(sync.set_inactive(), Effect::Notify(Window::RemoveElement));
    assert_eq!(removal_state(&sync), ("Z".to_string(), false));
    assert_eq!(sync.clone().get_cloned_state().id, "Z");
}
