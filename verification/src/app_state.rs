//! State that belongs to no window: the shortcut table, and the string from
//! which the application recovers its document after a restart.

use vstd::prelude::*;
use crate::character_data::CharacterData;
use crate::json::{as_flag, as_text, json_model, member, Json};
use crate::windows::editor::EditorStateSync;
use crate::windows::{Effect, Window};

verus! {

/// A key chord: a key and the modifiers held with it.
#[derive(Debug, PartialEq, Eq)]
pub struct PressedKey {
    pub ctrl: bool,
    pub alt: bool,
    pub shift: bool,
    pub key: String,
}

/// A key chord as a mathematical value.
pub ghost struct PressedKeyView {
    pub ctrl: bool,
    pub alt: bool,
    pub shift: bool,
    pub key: Seq<char>,
}

impl View for PressedKey {
    type V = PressedKeyView;

    open spec fn view(&self) -> PressedKeyView {
        PressedKeyView { ctrl: self.ctrl, alt: self.alt, shift: self.shift, key: self.key@ }
    }
}

impl Clone for PressedKey {
    fn clone(&self) -> (res: PressedKey)
        ensures
            res@ == self@,
    {
        PressedKey { ctrl: self.ctrl, alt: self.alt, shift: self.shift, key: self.key.clone() }
    }
}

/// The boolean under a key of a JSON object; false where the object has no
/// boolean there.
pub open spec fn flag_field(fields: Map<Seq<char>, Json>, key: Seq<char>) -> bool {
    fields.contains_key(key) && fields[key] == Json::Bool(true)
}

/// The string under a key of a JSON object; empty where the object has no
/// string there.
pub open spec fn text_field(fields: Map<Seq<char>, Json>, key: Seq<char>) -> Seq<char> {
    if fields.contains_key(key) {
        match fields[key] {
            Json::Text(s) => s,
            _ => Seq::empty(),
        }
    } else {
        Seq::empty()
    }
}

/// The chord that a JSON value describes by its members `ctrl`, `alt`,
/// `shift` and `key`. A value that is no object describes the empty key
/// with no modifier.
pub open spec fn pressed_key_of(content: Json) -> PressedKeyView {
    match content {
        Json::Object(fields) => PressedKeyView {
            ctrl: flag_field(fields, "ctrl"@),
            alt: flag_field(fields, "alt"@),
            shift: flag_field(fields, "shift"@),
            key: text_field(fields, "key"@),
        },
        _ => PressedKeyView { ctrl: false, alt: false, shift: false, key: Seq::empty() },
    }
}

/// Reads the boolean under a key of a JSON value.
fn read_flag(v: &serde_json::Value, key: &str) -> (res: bool)
    ensures
        res == (json_model(*v) matches Json::Object(fields) && flag_field(fields, key@)),
{
    match member(v, key) {
        Some(m) => match as_flag(m) {
            Some(b) => b,
            None => false,
        },
        None => false,
    }
}

/// Reads the string under a key of a JSON value.
fn read_text(v: &serde_json::Value, key: &str) -> (res: String)
    ensures
        res@ == (match json_model(*v) {
            Json::Object(fields) => text_field(fields, key@),
            _ => Seq::empty(),
        }),
{
    match member(v, key) {
        Some(m) => match as_text(m) {
            Some(s) => s.to_owned(),
            None => String::new(),
        },
        None => String::new(),
    }
}

impl PressedKey {
    /// Reads a chord from the payload of a keypress event.
    pub fn from_json(payload: &serde_json::Value) -> (res: PressedKey)
        ensures
            res@ == pressed_key_of(json_model(*payload)),
    {
        PressedKey {
            ctrl: read_flag(payload, "ctrl"),
            alt: read_flag(payload, "alt"),
            shift: read_flag(payload, "shift"),
            key: read_text(payload, "key"),
        }
    }

    /// True when two chords are the same.
    pub fn same(&self, other: &PressedKey) -> (res: bool)
        ensures
            res == (self@ == other@),
    {
        self.ctrl == other.ctrl && self.alt == other.alt && self.shift == other.shift && self.key
            == other.key
    }
}

/// One line of the shortcut table.
pub ghost struct ShortcutView {
    pub key: PressedKeyView,
    pub action: Seq<char>,
}

/// The action that a table gives for a chord: that of the first line with
/// the chord, if there is one.
pub open spec fn action_for(table: Seq<ShortcutView>, key: PressedKeyView) -> Option<Seq<char>>
    decreases table.len(),
{
    if table.len() == 0 {
        None
    } else if table[0].key == key {
        Some(table[0].action)
    } else {
        action_for(table.skip(1), key)
    }
}

/// The table from key chords to action names. It is filled at startup and
/// only read afterwards.
#[derive(Debug, PartialEq, Eq)]
pub struct LoadedShortcuts {
    entries: Vec<(PressedKey, String)>,
}

impl View for LoadedShortcuts {
    type V = Seq<ShortcutView>;

    closed spec fn view(&self) -> Seq<ShortcutView> {
        self.entries@.map_values(
            |e: (PressedKey, String)| ShortcutView { key: e.0@, action: e.1@ },
        )
    }
}

impl LoadedShortcuts {
    /// A table without lines.
    pub fn new() -> (res: LoadedShortcuts)
        ensures
            res@ == Seq::<ShortcutView>::empty(),
    {
        let res = LoadedShortcuts { entries: Vec::new() };
        assert(res@ =~= Seq::<ShortcutView>::empty());
        res
    }

    /// Adds a line after the others.
    pub fn add_entry(&mut self, key: PressedKey, action: String)
        ensures
            final(self)@ == old(self)@.push(ShortcutView { key: key@, action: action@ }),
    {
        self.entries.push((key, action));
        assert(self@ =~= old(self)@.push(ShortcutView { key: key@, action: action@ }));
    }

    /// The action name for a chord, if the table has the chord.
    pub fn get_entry(&self, key: &PressedKey) -> (res: Option<&String>)
        ensures
            match res {
                Some(action) => action_for(self@, key@) == Some(action@),
                None => action_for(self@, key@) is None,
            },
    {
        let mut i: usize = 0;
        assert(self@.skip(0) =~= self@);
        while i < self.entries.len()
            invariant
                i <= self.entries.len(),
                action_for(self@, key@) == action_for(self@.skip(i as int), key@),
            decreases self.entries.len() - i,
        {
            proof {
                assert(self@.skip(i as int)[0] == self@[i as int]);
                assert(self@.skip(i as int).skip(1) =~= self@.skip(i + 1));
            }
            if self.entries[i].0.same(key) {
                return Some(&self.entries[i].1);
            }
            i += 1;
        }
        None
    }
}

/// The string from which the application recovers after a restart: the path
/// of the document's file, empty for an unsaved document.
pub fn app_state_to_recovery_string(editor: &EditorStateSync) -> (res: String)
    ensures
        res@ == editor@.path,
{
    editor.get_path()
}

/// Recovers the document after a restart. `data` is the recovery string and
/// `loaded` the document read from that path, or `None` where reading it
/// failed. A document that was read becomes the editor's fresh baseline under
/// that path, and the editor window is to be notified. A failed read changes
/// nothing.
pub fn load_app_state_from_recovery_string(
    editor: &mut EditorStateSync,
    data: &str,
    loaded: Option<CharacterData>,
) -> (res: Option<Effect>)
    requires
        old(editor).wf(),
        loaded matches Some(d) ==> d.wf(),
    ensures
        final(editor).wf(),
        match loaded {
            Some(d) => final(editor)@ == old(editor)@.reassociated(data@, d@) && res == Some(
                Effect::Notify(Window::Editor),
            ),
            None => final(editor)@ == old(editor)@ && res is None,
        },
{
    match loaded {
        Some(document) => {
            Some(editor.change_associated_file(data.to_owned(), document))
        },
        None => None,
    }
}

} // verus!
