//! The document state container: the current document, its file path and
//! its undo history.

use vstd::prelude::*;
use crate::character_data::{empty_document, CharacterData, CommandError, DocumentView};
use crate::history::{History, HistoryView};
use crate::windows::{Effect, Window};

verus! {

/// The container as a mathematical value.
pub ghost struct EditorStateView {
    pub current: DocumentView,
    pub path: Seq<char>,
    pub history: HistoryView,
}

impl EditorStateView {
    /// The current document and every document of the history are well formed,
    /// and the history respects its limit.
    pub open spec fn wf(self) -> bool {
        self.current.wf() && self.history.wf()
    }

    /// True when the document has no backing file: the path is empty.
    pub open spec fn unsaved(self) -> bool {
        self.path.len() == 0
    }

    /// The container after a commit of `next`.
    pub open spec fn committed(self, next: DocumentView) -> EditorStateView {
        EditorStateView { current: next, history: self.history.committed(self.current), ..self }
    }

    /// The container after an undo; unchanged where there is nothing to undo.
    pub open spec fn undone(self) -> EditorStateView {
        if self.history.undo.len() > 0 {
            EditorStateView {
                current: self.history.undo.last(),
                history: self.history.undone(self.current),
                ..self
            }
        } else {
            self
        }
    }

    /// The container after a redo; unchanged where there is nothing to redo.
    pub open spec fn redone(self) -> EditorStateView {
        if self.history.redo.len() > 0 {
            EditorStateView {
                current: self.history.redo.last(),
                history: self.history.redone(self.current),
                ..self
            }
        } else {
            self
        }
    }

    /// The container after a command's outcome was applied: a commit of the
    /// new document, or no change where the command was rejected.
    pub open spec fn changed(self, command: Result<DocumentView, CommandError>) -> EditorStateView {
        match command {
            Ok(next) => self.committed(next),
            Err(_) => self,
        }
    }

    /// The container with another file and document as its fresh baseline:
    /// nothing is left to undo or redo.
    pub open spec fn reassociated(self, path: Seq<char>, document: DocumentView) -> EditorStateView {
        EditorStateView {
            current: document,
            path,
            history: HistoryView { undo: Seq::empty(), redo: Seq::empty() },
        }
    }
}

/// The outcome of a command, as a mathematical value.
pub open spec fn command_view(command: Result<CharacterData, CommandError>) -> Result<
    DocumentView,
    CommandError,
> {
    match command {
        Ok(d) => Ok(d@),
        Err(e) => Err(e),
    }
}

/// Undo after a commit brings back the document that the commit replaced,
/// and redo after that undo brings back the committed document, with the
/// whole container as it was after the commit.
pub proof fn lemma_undo_redo_round_trip(s: EditorStateView, next: DocumentView)
    ensures
        s.committed(next).undone().current == s.current,
        s.committed(next).undone().redone().current == next,
        s.committed(next).undone().redone() == s.committed(next),
{
    let c = s.committed(next);
    let u = c.undone();
    assert(c.history.undo.last() == s.current);
    assert(u.history.redo.last() == next);
    assert(u.redone().history.undo =~= c.history.undo);
    assert(u.redone().history.redo =~= c.history.redo);
}

/// A commit leaves nothing to redo: redo after a commit changes nothing. So a
/// commit, an undo, another commit and a redo end where the second commit
/// ended.
pub proof fn lemma_commit_clears_redo(s: EditorStateView, first: DocumentView, second: DocumentView)
    ensures
        s.committed(second).history.redo.len() == 0,
        s.committed(second).redone() == s.committed(second),
        s.committed(first).undone().committed(second).redone() == s.committed(
            first,
        ).undone().committed(second),
{
}

/// The current document with its path and history. Every operation that
/// changes what the editor window shows says so in its result, by the
/// notification that it returns or by `true`; the caller notifies the window
/// after the call has returned.
#[derive(Debug, PartialEq)]
pub struct EditorStateSync {
    data: CharacterData,
    path: String,
    history: History,
}

impl View for EditorStateSync {
    type V = EditorStateView;

    closed spec fn view(&self) -> EditorStateView {
        EditorStateView { current: self.data@, path: self.path@, history: self.history@ }
    }
}

impl EditorStateSync {
    /// The container's invariant.
    pub open spec fn wf(&self) -> bool {
        self@.wf()
    }

    /// An empty, unsaved document with no history.
    pub fn new() -> (res: EditorStateSync)
        ensures
            res.wf(),
            res@.current == empty_document(),
            res@.unsaved(),
            res@.history == (HistoryView { undo: Seq::empty(), redo: Seq::empty() }),
    {
        EditorStateSync {
            data: CharacterData::generate_empty(),
            path: String::new(),
            history: History::new(),
        }
    }

    /// The current document.
    pub fn data(&self) -> (res: &CharacterData)
        ensures
            res@ == self@.current,
            self.wf() ==> res.wf(),
    {
        &self.data
    }

    /// A copy of the current document.
    pub fn get_data(&self) -> (res: CharacterData)
        ensures
            res@ == self@.current,
    {
        self.data.clone()
    }

    /// Replaces the current document and leaves path and history alone. The
    /// editor window is to be notified.
    pub fn set_data(&mut self, data: CharacterData) -> (res: Effect)
        requires
            old(self).wf(),
            data.wf(),
        ensures
            final(self).wf(),
            final(self)@ == (EditorStateView { current: data@, ..old(self)@ }),
            res == Effect::Notify(Window::Editor),
    {
        self.data = data;
        Effect::Notify(Window::Editor)
    }

    /// Applies the outcome of a command. A new document is committed: the
    /// replaced document goes on the undo stack, the redo stack is emptied,
    /// and the editor window is to be notified. A rejection is returned and
    /// changes nothing.
    pub fn change_data(&mut self, command: Result<CharacterData, CommandError>) -> (res: Result<
        Effect,
        CommandError,
    >)
        requires
            old(self).wf(),
            command matches Ok(d) ==> d.wf(),
        ensures
            final(self).wf(),
            final(self)@ == old(self)@.changed(command_view(command)),
            match command {
                Ok(_) => res == Ok::<Effect, CommandError>(Effect::Notify(Window::Editor)),
                Err(e) => res == Err::<Effect, CommandError>(e),
            },
    {
        match command {
            Ok(next) => {
                let mut previous = next;
                std::mem::swap(&mut self.data, &mut previous);
                self.history.commit(previous);
                Ok(Effect::Notify(Window::Editor))
            },
            Err(e) => Err(e),
        }
    }

    /// Undoes the last commit and returns true: the editor window is to be
    /// notified. Returns false, and changes nothing, where there is nothing
    /// to undo.
    pub fn go_back(&mut self) -> (done: bool)
        requires
            old(self).wf(),
        ensures
            final(self).wf(),
            final(self)@ == old(self)@.undone(),
            done == (old(self)@.history.undo.len() > 0),
    {
        self.history.undo_one(&mut self.data)
    }

    /// Redoes the last undone commit and returns true: the editor window is
    /// to be notified. Returns false, and changes nothing, where there is
    /// nothing to redo.
    pub fn go_forward(&mut self) -> (done: bool)
        requires
            old(self).wf(),
        ensures
            final(self).wf(),
            final(self)@ == old(self)@.redone(),
            done == (old(self)@.history.redo.len() > 0),
    {
        self.history.redo_one(&mut self.data)
    }

    /// The path of the backing file; empty for an unsaved document.
    pub fn get_path(&self) -> (res: String)
        ensures
            res@ == self@.path,
    {
        self.path.clone()
    }

    /// True when the document has no backing file.
    pub fn is_unsaved(&self) -> (res: bool)
        ensures
            res == self@.unsaved(),
    {
        self.path.as_str().is_empty()
    }

    /// Sets the path of the backing file.
    pub fn set_path(&mut self, path: String)
        ensures
            final(self)@ == (EditorStateView { path: path@, ..old(self)@ }),
    {
        self.path = path;
    }

    /// Replaces path and document together. The new document is a fresh
    /// baseline: the history is emptied. The editor window is to be notified.
    pub fn change_associated_file(&mut self, path: String, data: CharacterData) -> (res: Effect)
        requires
            data.wf(),
        ensures
            final(self).wf(),
            final(self)@ == old(self)@.reassociated(path@, data@),
            res == Effect::Notify(Window::Editor),
    {
        self.path = path;
        self.data = data;
        self.history.clear();
        Effect::Notify(Window::Editor)
    }

    /// How many commits can be undone.
    pub fn undo_depth(&self) -> (res: usize)
        ensures
            res == self@.history.undo.len(),
    {
        self.history.undo_depth()
    }

    /// How many undone commits can be redone.
    pub fn redo_depth(&self) -> (res: usize)
        ensures
            res == self@.history.redo.len(),
    {
        self.history.redo_depth()
    }
}

} // verus!
