//! The application menu, its handler, and what opening and saving a
//! character sheet do to the editor's state.

use vstd::prelude::*;
use crate::character_data::CharacterData;
use crate::events::{effects_of, menu_action, menu_action_of, perform, state_after, Action};
use crate::windows::editor::{EditorStateSync, EditorStateView};
use crate::windows::{Effect, Window};

verus! {

/// An item of a menu: the id that a click reports, and the title shown.
#[derive(Clone, Copy, Debug, PartialEq, Eq)]
pub struct MenuItem {
    pub id: &'static str,
    pub title: &'static str,
}

/// A line of the menu bar: an item, or a submenu with its items.
#[derive(Debug, PartialEq, Eq)]
pub enum MenuEntry {
    Item(MenuItem),
    Submenu { title: &'static str, items: Vec<MenuItem> },
}

/// A menu item as a mathematical value.
pub ghost struct MenuItemView {
    pub id: Seq<char>,
    pub title: Seq<char>,
}

/// A line of the menu bar as a mathematical value.
pub ghost enum MenuEntryView {
    Item(MenuItemView),
    Submenu { title: Seq<char>, items: Seq<MenuItemView> },
}

impl View for MenuItem {
    type V = MenuItemView;

    open spec fn view(&self) -> MenuItemView {
        MenuItemView { id: self.id@, title: self.title@ }
    }
}

impl View for MenuEntry {
    type V = MenuEntryView;

    open spec fn view(&self) -> MenuEntryView {
        match *self {
            MenuEntry::Item(item) => MenuEntryView::Item(item@),
            MenuEntry::Submenu { title, items } => MenuEntryView::Submenu {
                title: title@,
                items: items@.map_values(|i: MenuItem| i@),
            },
        }
    }
}

/// An item, from the views of its id and title.
pub open spec fn item(id: Seq<char>, title: Seq<char>) -> MenuItemView {
    MenuItemView { id, title }
}

/// The application menu: the file submenu with new, save, save as and open,
/// then log, undo and redo.
pub open spec fn app_menu() -> Seq<MenuEntryView> {
    seq![
        MenuEntryView::Submenu {
            title: "File"@,
            items: seq![
                item("new"@, "New"@),
                item("save"@, "Save"@),
                item("save as"@, "Save As"@),
                item("open"@, "Open"@),
            ],
        },
        MenuEntryView::Item(item("log"@, "Log"@)),
        MenuEntryView::Item(item("undo"@, "Undo"@)),
        MenuEntryView::Item(item("redo"@, "Redo"@)),
    ]
}

/// The ids of the items of a menu, submenus included.
pub open spec fn menu_ids(menu: Seq<MenuEntryView>) -> Set<Seq<char>> {
    Set::new(
        |id: Seq<char>|
            exists|i: int|
                0 <= i < menu.len() && match #[trigger] menu[i] {
                    MenuEntryView::Item(it) => it.id == id,
                    MenuEntryView::Submenu { title, items } => exists|j: int|
                        0 <= j < items.len() && (#[trigger] items[j]).id == id,
                },
    )
}

/// True for the actions that the application menu offers.
pub open spec fn in_app_menu(action: Action) -> bool {
    action is Open || action is Log || action is Save || action is SaveAs || action is New
        || action is Undo || action is Redo
}

/// Builds the application menu.
pub fn generate_app_menu() -> (res: Vec<MenuEntry>)
    ensures
        res@.map_values(|e: MenuEntry| e@) == app_menu(),
{
    let mut file_menu: Vec<MenuItem> = Vec::new();
    file_menu.push(MenuItem { id: "new", title: "New" });
    file_menu.push(MenuItem { id: "save", title: "Save" });
    file_menu.push(MenuItem { id: "save as", title: "Save As" });
    file_menu.push(MenuItem { id: "open", title: "Open" });
    let file_submenu = MenuEntry::Submenu { title: "File", items: file_menu };
    let mut menu: Vec<MenuEntry> = Vec::new();
    menu.push(file_submenu);
    menu.push(MenuEntry::Item(MenuItem { id: "log", title: "Log" }));
    menu.push(MenuEntry::Item(MenuItem { id: "undo", title: "Undo" }));
    menu.push(MenuEntry::Item(MenuItem { id: "redo", title: "Redo" }));
    proof {
        let views = menu@.map_values(|e: MenuEntry| e@);
        assert(views[0]->Submenu_items =~= app_menu()[0]->Submenu_items);
        assert(views =~= app_menu());
    }
    menu
}

/// Every id of the application menu names an action that the menu offers.
pub proof fn lemma_app_menu_ids_are_actions(id: Seq<char>)
    requires
        menu_ids(app_menu()).contains(id),
    ensures
        menu_action_of(id) matches Some(action) && in_app_menu(action),
{
    reveal_strlit("open");
    reveal_strlit("save");
    reveal_strlit("save as");
    reveal_strlit("new");
    reveal_strlit("undo");
    reveal_strlit("redo");
    reveal_strlit("log");
    reveal_strlit("add_element");
    reveal_strlit("remove_element");
    reveal_strlit("readonly_switch");
    reveal_strlit("layout_switch");
    reveal_strlit("element_switch");
    let menu = app_menu();
    let i = choose|i: int|
        0 <= i < menu.len() && match #[trigger] menu[i] {
            MenuEntryView::Item(it) => it.id == id,
            MenuEntryView::Submenu { title, items } => exists|j: int|
                0 <= j < items.len() && (#[trigger] items[j]).id == id,
        };
    if i == 0 {
        let items = menu[0]->Submenu_items;
        let j = choose|j: int| 0 <= j < items.len() && (#[trigger] items[j]).id == id;
        assert(id == "new"@ || id == "save"@ || id == "save as"@ || id == "open"@);
    } else {
        assert(id == "log"@ || id == "undo"@ || id == "redo"@);
    }
    assert("save"@[0] != "open"@[0]);
    assert("log"@[0] != "new"@[0]);
    assert("undo"@[0] != "open"@[0] && "undo"@[0] != "save"@[0]);
    assert("redo"@[0] != "open"@[0] && "redo"@[0] != "save"@[0] && "redo"@[0] != "undo"@[0]);
}

/// Handles a click on an item of the application menu. An id that is not of
/// this menu is reported and changes nothing.
pub fn menu_handler(editor: &mut EditorStateSync, id: &str) -> (res: Vec<Effect>)
    requires
        old(editor).wf(),
    ensures
        final(editor).wf(),
        match menu_action_of(id@) {
            Some(action) if in_app_menu(action) => final(editor)@ == state_after(
                old(editor)@,
                action,
            ) && res@ == effects_of(old(editor)@, action),
            _ => final(editor)@ == old(editor)@ && res@ == seq![Effect::Unrecognized],
        },
{
    match menu_action(id) {
        Some(Action::Open) => perform(editor, Action::Open),
        Some(Action::Log) => perform(editor, Action::Log),
        Some(Action::Save) => perform(editor, Action::Save),
        Some(Action::SaveAs) => perform(editor, Action::SaveAs),
        Some(Action::New) => perform(editor, Action::New),
        Some(Action::Undo) => perform(editor, Action::Undo),
        Some(Action::Redo) => perform(editor, Action::Redo),
        _ => {
            let mut effects: Vec<Effect> = Vec::new();
            effects.push(Effect::Unrecognized);
            assert(effects@ =~= seq![Effect::Unrecognized]);
            effects
        },
    }
}

/// What the user picked in the open dialog, and what reading it gave.
#[derive(Debug, PartialEq)]
pub enum OpenedFile {
    /// The user picked nothing.
    Cancelled,
    /// The file at the path could not be read; the text says why.
    Unreadable(String, String),
    /// The file at the path holds the document.
    Loaded(String, CharacterData),
}

/// What came of opening a file or of saving under a new path.
#[derive(Debug, PartialEq, Eq)]
pub struct FileOutcome {
    /// What the caller is to do, in order.
    pub effects: Vec<Effect>,
    /// Why the read or the write failed, if it did; the caller reports it.
    pub error: Option<String>,
}

/// The failure that an outcome reports, as a mathematical value.
pub open spec fn reported(outcome: FileOutcome) -> Option<Seq<char>> {
    match outcome.error {
        Some(text) => Some(text@),
        None => None,
    }
}

/// Finishes opening a character sheet. A document that was read becomes the
/// editor's fresh baseline under its path, and the editor window is notified
/// and brought to the front. A failed read is reported and changes nothing. A
/// cancelled dialog changes nothing.
pub fn open_character_sheet(editor: &mut EditorStateSync, opened: OpenedFile) -> (res: FileOutcome)
    requires
        old(editor).wf(),
        opened matches OpenedFile::Loaded(_, d) ==> d.wf(),
    ensures
        final(editor).wf(),
        match opened {
            OpenedFile::Loaded(path, d) => final(editor)@ == old(editor)@.reassociated(path@, d@)
                && res.effects@ == seq![Effect::Notify(Window::Editor), Effect::Show(Window::Editor)]
                && reported(res) is None,
            OpenedFile::Unreadable(_, text) => final(editor)@ == old(editor)@ && res.effects@
                == Seq::<Effect>::empty() && reported(res) == Some(text@),
            OpenedFile::Cancelled => final(editor)@ == old(editor)@ && res.effects@ == Seq::<
                Effect,
            >::empty() && reported(res) is None,
        },
{
    match opened {
        OpenedFile::Loaded(path, document) => {
            let mut effects: Vec<Effect> = Vec::new();
            effects.push(editor.change_associated_file(path, document));
            effects.push(Effect::Show(Window::Editor));
            assert(effects@ =~= seq![
                Effect::Notify(Window::Editor),
                Effect::Show(Window::Editor),
            ]);
            FileOutcome { effects, error: None }
        },
        OpenedFile::Unreadable(_, text) => FileOutcome { effects: Vec::new(), error: Some(text) },
        OpenedFile::Cancelled => FileOutcome { effects: Vec::new(), error: None },
    }
}

/// What saving writes and where: the current document and its path. An
/// unsaved document has no file to write to, and nothing is written.
pub fn save_character_sheet(editor: &EditorStateSync) -> (res: Option<(String, CharacterData)>)
    ensures
        match res {
            Some((path, document)) => !editor@.unsaved() && path@ == editor@.path && document@
                == editor@.current,
            None => editor@.unsaved(),
        },
{
    if editor.is_unsaved() {
        None
    } else {
        Some((editor.get_path(), editor.get_data()))
    }
}

/// Finishes saving under a new path. `picked` is the path that the user
/// chose, and `written` what writing the document there gave. After a write
/// that succeeded the path is the document's path. A failed write is reported
/// and keeps the old path. Either way the editor window is brought to the
/// front. A cancelled dialog changes nothing and reports nothing.
pub fn save_as_character_sheet(
    editor: &mut EditorStateSync,
    picked: Option<String>,
    written: Result<(), String>,
) -> (res: FileOutcome)
    ensures
        match picked {
            Some(path) => res.effects@ == seq![Effect::Show(Window::Editor)] && match written {
                Ok(_) => final(editor)@ == (EditorStateView { path: path@, ..old(editor)@ })
                    && reported(res) is None,
                Err(text) => final(editor)@ == old(editor)@ && reported(res) == Some(text@),
            },
            None => final(editor)@ == old(editor)@ && res.effects@ == Seq::<Effect>::empty()
                && reported(res) is None,
        },
{
    match picked {
        Some(path) => {
            let mut effects: Vec<Effect> = Vec::new();
            effects.push(Effect::Show(Window::Editor));
            assert(effects@ =~= seq![Effect::Show(Window::Editor)]);
            match written {
                Ok(()) => {
                    editor.set_path(path);
                    FileOutcome { effects, error: None }
                },
                Err(text) => FileOutcome { effects, error: Some(text) },
            }
        },
        None => FileOutcome { effects: Vec::new(), error: None },
    }
}

} // verus!
