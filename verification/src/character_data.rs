//! The character-sheet document and the commands that change it.

use vstd::prelude::*;
use crate::json::{clone_value, is_object, json_model};
use crate::placement::Placement;
use crate::text::same_text;

verus! {

/// Columns of a new document's grid.
pub const DEFAULT_COLUMNS: i64 = 12;

/// Rows of a new document's grid.
pub const DEFAULT_ROWS: i64 = 16;

/// Why a command was rejected.
#[derive(Clone, Copy, Debug, PartialEq, Eq, Structural)]
pub enum CommandError {
    /// The id is empty or already names an element.
    DuplicateId,
    /// No element has the id.
    UnknownId,
    /// The payload is missing or is no JSON object.
    MalformedPayload,
}

/// One placed item of the grid.
#[derive(Debug, PartialEq)]
pub struct Element {
    pub id: String,
    pub placement: Placement,
    pub payload: serde_json::Value,
}

/// An element as a mathematical value.
pub ghost struct ElementView {
    pub id: Seq<char>,
    pub placement: Placement,
    pub payload: serde_json::Value,
}

impl View for Element {
    type V = ElementView;

    open spec fn view(&self) -> ElementView {
        ElementView { id: self.id@, placement: self.placement, payload: self.payload }
    }
}

impl Clone for Element {
    fn clone(&self) -> (res: Element)
        ensures
            res@ == self@,
    {
        Element {
            id: self.id.clone(),
            placement: self.placement,
            payload: clone_value(&self.payload),
        }
    }
}

/// A document as a mathematical value: the grid's size and the elements in
/// the order in which they were added.
pub ghost struct DocumentView {
    pub columns: i64,
    pub rows: i64,
    pub elements: Seq<ElementView>,
}

impl DocumentView {
    /// Some element has the id.
    pub open spec fn has_id(self, id: Seq<char>) -> bool {
        exists|i: int| 0 <= i < self.elements.len() && #[trigger] self.elements[i].id == id
    }

    /// The id can name a new element: it is not empty and no element has it.
    pub open spec fn id_available(self, id: Seq<char>) -> bool {
        id.len() > 0 && !self.has_id(id)
    }

    /// Where the element with the id stands.
    pub open spec fn position(self, id: Seq<char>) -> int {
        choose|i: int| 0 <= i < self.elements.len() && #[trigger] self.elements[i].id == id
    }

    /// Ids are unique and not empty, and every payload is a JSON object.
    pub open spec fn wf(self) -> bool {
        &&& forall|i: int, j: int|
            0 <= i < j < self.elements.len() ==> #[trigger] self.elements[i].id
                != #[trigger] self.elements[j].id
        &&& forall|i: int|
            0 <= i < self.elements.len() ==> (#[trigger] self.elements[i]).id.len() > 0
        &&& forall|i: int|
            0 <= i < self.elements.len() ==> json_model(
                (#[trigger] self.elements[i]).payload,
            ) is Object
    }

    /// The document with one more element, after the others.
    pub open spec fn with_element(self, e: ElementView) -> DocumentView {
        DocumentView { elements: self.elements.push(e), ..self }
    }

    /// The document without the element that has the id.
    pub open spec fn without(self, id: Seq<char>) -> DocumentView {
        DocumentView { elements: self.elements.remove(self.position(id)), ..self }
    }

    /// The geometry of each element, in the elements' order.
    pub open spec fn grid(self) -> Seq<Placement> {
        self.elements.map_values(|e: ElementView| e.placement)
    }

    /// What adding an element gives: the id is judged first, then the payload.
    pub open spec fn added(
        self,
        payload: Option<serde_json::Value>,
        id: Seq<char>,
        placement: Placement,
    ) -> Result<DocumentView, CommandError> {
        if !self.id_available(id) {
            Err(CommandError::DuplicateId)
        } else {
            match payload {
                Some(p) if json_model(p) is Object => Ok(
                    self.with_element(ElementView { id, placement, payload: p }),
                ),
                _ => Err(CommandError::MalformedPayload),
            }
        }
    }

    /// What removing an element gives.
    pub open spec fn removed(self, id: Seq<char>) -> Result<DocumentView, CommandError> {
        if self.has_id(id) {
            Ok(self.without(id))
        } else {
            Err(CommandError::UnknownId)
        }
    }
}

/// `row` is the lowest unoccupied row of a grid: the largest `y + h` of its
/// rectangles, or 0 where it has none.
pub open spec fn is_lowest_unoccupied_row(grid: Seq<Placement>, row: i64) -> bool {
    &&& grid.len() == 0 ==> row == 0
    &&& forall|i: int| 0 <= i < grid.len() ==> (#[trigger] grid[i]).row_below() <= row
    &&& grid.len() > 0 ==> exists|i: int|
        0 <= i < grid.len() && (#[trigger] grid[i]).row_below() == row
}

/// The canonical empty document: no element, a grid of the default size.
pub open spec fn empty_document() -> DocumentView {
    DocumentView { columns: DEFAULT_COLUMNS, rows: DEFAULT_ROWS, elements: Seq::empty() }
}

/// The views of a run of elements.
pub open spec fn element_views(elements: Seq<Element>) -> Seq<ElementView> {
    elements.map_values(|e: Element| e@)
}

/// The character sheet: a grid of elements with unique ids.
#[derive(Debug, PartialEq)]
pub struct CharacterData {
    columns: i64,
    rows: i64,
    elements: Vec<Element>,
}

impl View for CharacterData {
    type V = DocumentView;

    closed spec fn view(&self) -> DocumentView {
        DocumentView {
            columns: self.columns,
            rows: self.rows,
            elements: element_views(self.elements@),
        }
    }
}

impl Clone for CharacterData {
    fn clone(&self) -> (res: CharacterData)
        ensures
            res@ == self@,
    {
        let mut elements: Vec<Element> = Vec::new();
        let mut i: usize = 0;
        while i < self.elements.len()
            invariant
                i <= self.elements.len(),
                elements@.len() == i,
                forall|j: int| 0 <= j < i ==> (#[trigger] elements@[j])@ == self.elements@[j]@,
            decreases self.elements.len() - i,
        {
            let e = self.elements[i].clone();
            elements.push(e);
            i += 1;
        }
        assert(element_views(elements@) =~= element_views(self.elements@));
        CharacterData { columns: self.columns, rows: self.rows, elements }
    }
}

impl CharacterData {
    /// The document's invariant.
    pub open spec fn wf(&self) -> bool {
        self@.wf()
    }

    /// The canonical empty document.
    pub fn generate_empty() -> (res: CharacterData)
        ensures
            res.wf(),
            res@ == empty_document(),
    {
        CharacterData::with_grid(DEFAULT_COLUMNS, DEFAULT_ROWS)
    }

    /// An empty document with a grid of the given size.
    pub fn with_grid(columns: i64, rows: i64) -> (res: CharacterData)
        ensures
            res.wf(),
            res@ == (DocumentView { columns, rows, elements: Seq::empty() }),
    {
        let res = CharacterData { columns, rows, elements: Vec::new() };
        assert(res@.elements =~= Seq::empty());
        res
    }

    /// The number of elements.
    pub fn len(&self) -> (res: usize)
        ensures
            res == self@.elements.len(),
    {
        self.elements.len()
    }

    /// The grid's columns.
    pub fn columns(&self) -> (res: i64)
        ensures
            res == self@.columns,
    {
        self.columns
    }

    /// The grid's rows.
    pub fn rows(&self) -> (res: i64)
        ensures
            res == self@.rows,
    {
        self.rows
    }

    /// The element at an index, in the order of adding.
    pub fn element(&self, index: usize) -> (res: Option<&Element>)
        ensures
            match res {
                Some(e) => index < self@.elements.len() && e@ == self@.elements[index as int],
                None => index >= self@.elements.len(),
            },
    {
        if index < self.elements.len() {
            Some(&self.elements[index])
        } else {
            None
        }
    }

    /// Where the first element with the id stands, if there is one.
    pub fn find(&self, id: &str) -> (res: Option<usize>)
        ensures
            match res {
                Some(i) => i < self@.elements.len() && self@.elements[i as int].id == id@
                    && forall|j: int| 0 <= j < i ==> (#[trigger] self@.elements[j]).id != id@,
                None => !self@.has_id(id@),
            },
    {
        let mut i: usize = 0;
        while i < self.elements.len()
            invariant
                i <= self.elements.len(),
                forall|j: int| 0 <= j < i ==> (#[trigger] self@.elements[j]).id != id@,
            decreases self.elements.len() - i,
        {
            if same_text(self.elements[i].id.as_str(), id) {
                return Some(i);
            }
            i += 1;
        }
        None
    }

    /// True when the id can name a new element: it is not empty and no
    /// element has it.
    pub fn check_id(&self, id: &str) -> (res: bool)
        ensures
            res == self@.id_available(id@),
    {
        if id.is_empty() {
            return false;
        }
        match self.find(id) {
            Some(_) => false,
            None => true,
        }
    }

    /// The geometry of each element.
    pub fn get_grid(&self) -> (res: Vec<Placement>)
        ensures
            res@ == self@.grid(),
    {
        let mut grid: Vec<Placement> = Vec::new();
        let mut i: usize = 0;
        while i < self.elements.len()
            invariant
                i <= self.elements.len(),
                grid@.len() == i,
                forall|j: int| 0 <= j < i ==> (#[trigger] grid@[j]) == self.elements@[j].placement,
            decreases self.elements.len() - i,
        {
            grid.push(self.elements[i].placement);
            i += 1;
        }
        assert(grid@ =~= self@.grid());
        grid
    }

    /// Adds an element after the others. The id is judged first, then the
    /// payload; a rejected command leaves the document as it was. Overlap
    /// with other elements is not judged here.
    pub fn add(
        &mut self,
        payload: Option<serde_json::Value>,
        id: String,
        placement: Placement,
    ) -> (res: Result<(), CommandError>)
        requires
            old(self).wf(),
        ensures
            final(self).wf(),
            match old(self)@.added(payload, id@, placement) {
                Ok(doc) => res is Ok && final(self)@ == doc,
                Err(e) => res == Err::<(), CommandError>(e) && final(self)@ == old(self)@,
            },
    {
        if !self.check_id(id.as_str()) {
            return Err(CommandError::DuplicateId);
        }
        match payload {
            Some(p) => {
                if !is_object(&p) {
                    return Err(CommandError::MalformedPayload);
                }
                let e = Element { id, placement, payload: p };
                self.elements.push(e);
                assert(self@.elements =~= old(self)@.elements.push(e@));
                Ok(())
            },
            None => Err(CommandError::MalformedPayload),
        }
    }

    /// Removes the element with the id; the others keep their order. A
    /// rejected command leaves the document as it was.
    pub fn remove(&mut self, id: &str) -> (res: Result<(), CommandError>)
        requires
            old(self).wf(),
        ensures
            final(self).wf(),
            match old(self)@.removed(id@) {
                Ok(doc) => res is Ok && final(self)@ == doc,
                Err(e) => res == Err::<(), CommandError>(e) && final(self)@ == old(self)@,
            },
    {
        match self.find(id) {
            Some(i) => {
                proof {
                    let p = self@.position(id@);
                    assert(self@.elements[i as int].id == id@);
                    assert(p == i);
                }
                let _ = self.elements.remove(i);
                assert(self@.elements =~= old(self)@.elements.remove(i as int));
                Ok(())
            },
            None => Err(CommandError::UnknownId),
        }
    }
}

/// The lowest unoccupied row of a grid: the largest `y + h` of its
/// rectangles, or 0 where it has none.
pub fn lowest_unoccupied_row(grid: &Vec<Placement>) -> (row: i64)
    ensures
        is_lowest_unoccupied_row(grid@, row),
{
    if grid.len() == 0 {
        return 0;
    }
    let mut row: i64 = grid[0].lower_edge();
    let mut i: usize = 1;
    while i < grid.len()
        invariant
            1 <= i <= grid.len(),
            forall|j: int| 0 <= j < i ==> (#[trigger] grid@[j]).row_below() <= row,
            exists|j: int| 0 <= j < i && (#[trigger] grid@[j]).row_below() == row,
        decreases grid.len() - i,
    {
        let below: i64 = grid[i].lower_edge();
        if below > row {
            row = below;
        }
        i += 1;
    }
    row
}

/// Adding an element under an available id, with a JSON object as payload,
/// succeeds. The new document has exactly one more element: the elements it
/// had, and after them one with the id, the placement and the payload. The id
/// is then no longer available.
pub proof fn lemma_add_element(
    d: DocumentView,
    payload: serde_json::Value,
    id: Seq<char>,
    placement: Placement,
)
    requires
        d.wf(),
        d.id_available(id),
        json_model(payload) is Object,
    ensures
        d.added(Some(payload), id, placement) matches Ok(n) && n.wf() && n.elements.len()
            == d.elements.len() + 1 && n.elements.drop_last() == d.elements && n.elements.last()
            == (ElementView { id, placement, payload }) && n.has_id(id) && !n.id_available(id),
{
    let e = ElementView { id, placement, payload };
    let n = d.with_element(e);
    assert(n.elements.drop_last() =~= d.elements);
    assert(n.elements[d.elements.len() as int].id == id);
    assert forall|i: int, j: int| 0 <= i < j < n.elements.len() implies #[trigger] n.elements[i].id
        != #[trigger] n.elements[j].id by {
        if j == d.elements.len() {
            assert(d.elements[i].id != id);
        }
    }
}

/// Adding an element under an id that is empty or that an element already
/// has is rejected as a duplicate, whatever the payload.
pub proof fn lemma_add_rejects_taken_id(
    d: DocumentView,
    payload: Option<serde_json::Value>,
    id: Seq<char>,
    placement: Placement,
)
    requires
        d.has_id(id) || id.len() == 0,
    ensures
        d.added(payload, id, placement) == Err::<DocumentView, CommandError>(
            CommandError::DuplicateId,
        ),
{
}

/// Removing an id that no element has is rejected. Removing the id of an
/// element gives a document with one element fewer, in which no element has
/// the id and every other element stands as before, in the same order.
pub proof fn lemma_remove_element(d: DocumentView, id: Seq<char>)
    requires
        d.wf(),
    ensures
        !d.has_id(id) ==> d.removed(id) == Err::<DocumentView, CommandError>(
            CommandError::UnknownId,
        ),
        d.has_id(id) ==> (d.removed(id) matches Ok(n) && n.wf() && !n.has_id(id)
            && n.elements.len() == d.elements.len() - 1 && n.elements == d.elements.filter(
            |e: ElementView| e.id != id,
        )),
{
    if d.has_id(id) {
        let p = d.position(id);
        let n = d.without(id);
        assert forall|i: int| 0 <= i < n.elements.len() implies (#[trigger] n.elements[i]).id
            != id by {
            if i < p {
                assert(n.elements[i] == d.elements[i]);
            } else {
                assert(n.elements[i] == d.elements[i + 1]);
            }
        }
        assert forall|i: int, j: int| 0 <= i < j < n.elements.len() implies #[trigger] n.elements[i].id
            != #[trigger] n.elements[j].id by {
            let a = if i < p { i } else { i + 1 };
            let b = if j < p { j } else { j + 1 };
            assert(n.elements[i] == d.elements[a]);
            assert(n.elements[j] == d.elements[b]);
        }
        assert forall|i: int| 0 <= i < n.elements.len() implies (#[trigger] n.elements[i]).id.len()
            > 0 && json_model(n.elements[i].payload) is Object by {
            let a = if i < p { i } else { i + 1 };
            assert(n.elements[i] == d.elements[a]);
        }
        lemma_filter_removes_one(d.elements, id, p);
    }
}

/// In a run of elements where only the one at `p` has the id, keeping the
/// elements with another id is removing the one at `p`.
proof fn lemma_filter_removes_one(elements: Seq<ElementView>, id: Seq<char>, p: int)
    requires
        0 <= p < elements.len(),
        elements[p].id == id,
        forall|i: int| 0 <= i < elements.len() && i != p ==> (#[trigger] elements[i]).id != id,
    ensures
        elements.filter(|e: ElementView| e.id != id) == elements.remove(p),
    decreases elements.len(),
{
    let keep = |e: ElementView| e.id != id;
    reveal(Seq::filter);
    let front = elements.drop_last();
    let last = elements.last();
    if p == elements.len() - 1 {
        lemma_filter_keeps_all(front, id);
        assert(elements.remove(p) =~= front);
    } else {
        lemma_filter_removes_one(front, id, p);
        assert(keep(last));
        assert(elements.remove(p) =~= front.remove(p).push(last));
    }
}

/// In a run of elements of which none has the id, keeping the elements with
/// another id keeps them all.
proof fn lemma_filter_keeps_all(elements: Seq<ElementView>, id: Seq<char>)
    requires
        forall|i: int| 0 <= i < elements.len() ==> (#[trigger] elements[i]).id != id,
    ensures
        elements.filter(|e: ElementView| e.id != id) == elements,
    decreases elements.len(),
{
    let keep = |e: ElementView| e.id != id;
    reveal(Seq::filter);
    if elements.len() > 0 {
        lemma_filter_keeps_all(elements.drop_last(), id);
        assert(keep(elements.last()));
        assert(elements.drop_last().push(elements.last()) =~= elements);
    }
}

/// The commands that turn an edit intent into a new document or a rejection.
pub struct CharacterDataCommand {}

impl CharacterDataCommand {
    /// The document with a new element, or the reason why it is rejected.
    pub fn add_element(
        current: CharacterData,
        payload: Option<serde_json::Value>,
        id: String,
        placement: Placement,
    ) -> (res: Result<CharacterData, CommandError>)
        requires
            current.wf(),
        ensures
            match current@.added(payload, id@, placement) {
                Ok(doc) => res matches Ok(d) && d@ == doc && d.wf(),
                Err(e) => res matches Err(f) && f == e,
            },
    {
        let mut doc = current;
        match doc.add(payload, id, placement) {
            Ok(()) => Ok(doc),
            Err(e) => Err(e),
        }
    }

    /// The document without the element that has the id, or the reason why
    /// the command is rejected.
    pub fn remove_element(current: CharacterData, id: &str) -> (res: Result<
        CharacterData,
        CommandError,
    >)
        requires
            current.wf(),
        ensures
            match current@.removed(id@) {
                Ok(doc) => res matches Ok(d) && d@ == doc && d.wf(),
                Err(e) => res matches Err(f) && f == e,
            },
    {
        let mut doc = current;
        match doc.remove(id) {
            Ok(()) => Ok(doc),
            Err(e) => Err(e),
        }
    }
}

} // verus!
