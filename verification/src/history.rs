//! The bounded undo and redo stacks of a document.

use vstd::prelude::*;
use crate::character_data::{CharacterData, DocumentView};

verus! {

/// The most documents that the two stacks hold together. When a commit
/// finds the undo stack full, the oldest document is discarded.
pub const HISTORY_LIMIT: usize = 100;

/// The views of a run of documents.
pub open spec fn document_views(documents: Seq<CharacterData>) -> Seq<DocumentView> {
    documents.map_values(|d: CharacterData| d@)
}

/// The two stacks as mathematical values; the last document of each is its top.
pub ghost struct HistoryView {
    pub undo: Seq<DocumentView>,
    pub redo: Seq<DocumentView>,
}

impl HistoryView {
    /// Every document is well formed, and the stacks respect the limit.
    pub open spec fn wf(self) -> bool {
        &&& self.undo.len() + self.redo.len() <= HISTORY_LIMIT
        &&& forall|i: int| 0 <= i < self.undo.len() ==> (#[trigger] self.undo[i]).wf()
        &&& forall|i: int| 0 <= i < self.redo.len() ==> (#[trigger] self.redo[i]).wf()
    }

    /// The stacks after a commit that replaced `previous`: the redo stack is
    /// empty, and `previous` is on top of the undo stack, which lost its
    /// oldest document if it was full.
    pub open spec fn committed(self, previous: DocumentView) -> HistoryView {
        HistoryView {
            undo: if self.undo.len() >= HISTORY_LIMIT {
                self.undo.skip(1).push(previous)
            } else {
                self.undo.push(previous)
            },
            redo: Seq::empty(),
        }
    }

    /// The stacks after an undo that replaced `current`.
    pub open spec fn undone(self, current: DocumentView) -> HistoryView {
        HistoryView { undo: self.undo.drop_last(), redo: self.redo.push(current) }
    }

    /// The stacks after a redo that replaced `current`.
    pub open spec fn redone(self, current: DocumentView) -> HistoryView {
        HistoryView { undo: self.undo.push(current), redo: self.redo.drop_last() }
    }
}

/// The documents that undo and redo can bring back.
#[derive(Debug, PartialEq)]
pub struct History {
    undo: Vec<CharacterData>,
    redo: Vec<CharacterData>,
}

impl View for History {
    type V = HistoryView;

    closed spec fn view(&self) -> HistoryView {
        HistoryView { undo: document_views(self.undo@), redo: document_views(self.redo@) }
    }
}

impl History {
    /// The history's invariant.
    pub open spec fn wf(&self) -> bool {
        self@.wf()
    }

    /// A history with nothing to undo or redo.
    pub fn new() -> (res: History)
        ensures
            res.wf(),
            res@ == (HistoryView { undo: Seq::empty(), redo: Seq::empty() }),
    {
        let res = History { undo: Vec::new(), redo: Vec::new() };
        assert(res@.undo =~= Seq::empty());
        assert(res@.redo =~= Seq::empty());
        res
    }

    /// How many documents undo can bring back.
    pub fn undo_depth(&self) -> (res: usize)
        ensures
            res == self@.undo.len(),
    {
        self.undo.len()
    }

    /// How many documents redo can bring back.
    pub fn redo_depth(&self) -> (res: usize)
        ensures
            res == self@.redo.len(),
    {
        self.redo.len()
    }

    /// Records a commit: `previous` is the document that the commit replaced.
    pub fn commit(&mut self, previous: CharacterData)
        requires
            old(self).wf(),
            previous.wf(),
        ensures
            final(self).wf(),
            final(self)@ == old(self)@.committed(previous@),
    {
        self.redo.clear();
        if self.undo.len() >= HISTORY_LIMIT {
            let _ = self.undo.remove(0);
        }
        self.undo.push(previous);
        proof {
            assert(self@.redo =~= Seq::empty());
            assert(self@.undo =~= old(self)@.committed(previous@).undo);
        }
    }

    /// Brings back the document on top of the undo stack and keeps the
    /// replaced one for redo. With nothing to undo, changes nothing and
    /// returns false.
    pub fn undo_one(&mut self, data: &mut CharacterData) -> (done: bool)
        requires
            old(self).wf(),
            old(data).wf(),
        ensures
            final(self).wf(),
            final(data).wf(),
            done == (old(self)@.undo.len() > 0),
            done ==> final(data)@ == old(self)@.undo.last() && final(self)@ == old(self)@.undone(
                old(data)@,
            ),
            !done ==> final(data)@ == old(data)@ && final(self)@ == old(self)@,
    {
        match self.undo.pop() {
            Some(previous) => {
                let mut replaced = previous;
                std::mem::swap(data, &mut replaced);
                self.redo.push(replaced);
                proof {
                    assert(self@.undo =~= old(self)@.undo.drop_last());
                    assert(self@.redo =~= old(self)@.redo.push(old(data)@));
                    assert(data@ == old(self)@.undo.last());
                }
                true
            },
            None => {
                proof {
                    assert(self@.undo =~= old(self)@.undo);
                }
                false
            },
        }
    }

    /// Brings back the document on top of the redo stack and keeps the
    /// replaced one for undo. With nothing to redo, changes nothing and
    /// returns false.
    pub fn redo_one(&mut self, data: &mut CharacterData) -> (done: bool)
        requires
            old(self).wf(),
            old(data).wf(),
        ensures
            final(self).wf(),
            final(data).wf(),
            done == (old(self)@.redo.len() > 0),
            done ==> final(data)@ == old(self)@.redo.last() && final(self)@ == old(self)@.redone(
                old(data)@,
            ),
            !done ==> final(data)@ == old(data)@ && final(self)@ == old(self)@,
    {
        match self.redo.pop() {
            Some(next) => {
                let mut replaced = next;
                std::mem::swap(data, &mut replaced);
                self.undo.push(replaced);
                proof {
                    assert(self@.redo =~= old(self)@.redo.drop_last());
                    assert(self@.undo =~= old(self)@.undo.push(old(data)@));
                    assert(data@ == old(self)@.redo.last());
                }
                true
            },
            None => {
                proof {
                    assert(self@.redo =~= old(self)@.redo);
                }
                false
            },
        }
    }

    /// Forgets every document.
    pub fn clear(&mut self)
        ensures
            final(self).wf(),
            final(self)@ == (HistoryView { undo: Seq::empty(), redo: Seq::empty() }),
    {
        self.undo.clear();
        self.redo.clear();
        proof {
            assert(self@.undo =~= Seq::empty());
            assert(self@.redo =~= Seq::empty());
        }
    }
}

} // verus!
