//! Geometry of an element on the grid, and the shared placement preview.

use vstd::prelude::*;
use crate::json::{empty_object, int_value, no_fields, object_fields, set_member, Json};
use crate::text::same_text;

verus! {

/// A rectangle on the grid: column, row, width and height.
#[derive(Clone, Copy, Debug, PartialEq, Eq, Structural)]
pub struct Placement {
    pub x: i64,
    pub y: i64,
    pub w: i64,
    pub h: i64,
}

/// One of the four keys of a placement.
#[derive(Clone, Copy, Debug, PartialEq, Eq, Structural)]
pub enum GeometryKey {
    X,
    Y,
    W,
    H,
}

/// A partial placement: the keys that a request carries.
#[derive(Clone, Copy, Debug, PartialEq, Eq)]
pub struct PlacementPatch {
    pub x: Option<i64>,
    pub y: Option<i64>,
    pub w: Option<i64>,
    pub h: Option<i64>,
}

/// The key that a name stands for: `x`, `y`, `w` or `h`.
pub open spec fn geometry_key_of(name: Seq<char>) -> Option<GeometryKey> {
    if name == "x"@ {
        Some(GeometryKey::X)
    } else if name == "y"@ {
        Some(GeometryKey::Y)
    } else if name == "w"@ {
        Some(GeometryKey::W)
    } else if name == "h"@ {
        Some(GeometryKey::H)
    } else {
        None
    }
}

impl GeometryKey {
    /// Reads a key's name.
    pub fn from_name(name: &str) -> (res: Option<GeometryKey>)
        ensures
            res == geometry_key_of(name@),
    {
        if same_text(name, "x") {
            Some(GeometryKey::X)
        } else if same_text(name, "y") {
            Some(GeometryKey::Y)
        } else if same_text(name, "w") {
            Some(GeometryKey::W)
        } else if same_text(name, "h") {
            Some(GeometryKey::H)
        } else {
            None
        }
    }
}

impl Placement {
    /// The value under a key.
    pub open spec fn at(self, key: GeometryKey) -> i64 {
        match key {
            GeometryKey::X => self.x,
            GeometryKey::Y => self.y,
            GeometryKey::W => self.w,
            GeometryKey::H => self.h,
        }
    }

    /// This placement with one key set to a value.
    pub open spec fn with(self, key: GeometryKey, value: i64) -> Placement {
        match key {
            GeometryKey::X => Placement { x: value, ..self },
            GeometryKey::Y => Placement { y: value, ..self },
            GeometryKey::W => Placement { w: value, ..self },
            GeometryKey::H => Placement { h: value, ..self },
        }
    }

    /// This placement with the keys of a patch written over it.
    pub open spec fn merged(self, patch: PlacementPatch) -> Placement {
        Placement {
            x: if let Some(v) = patch.x { v } else { self.x },
            y: if let Some(v) = patch.y { v } else { self.y },
            w: if let Some(v) = patch.w { v } else { self.w },
            h: if let Some(v) = patch.h { v } else { self.h },
        }
    }

    /// The first row below the rectangle, `y + h`, kept within `i64`.
    pub open spec fn row_below(self) -> i64 {
        let sum = self.y + self.h;
        if sum > i64::MAX {
            i64::MAX
        } else if sum < i64::MIN {
            i64::MIN
        } else {
            sum as i64
        }
    }

    /// The JSON members that stand for this placement.
    pub open spec fn fields(self) -> Map<Seq<char>, Json> {
        no_fields().insert("x"@, Json::Int(self.x as int)).insert(
            "y"@,
            Json::Int(self.y as int),
        ).insert("w"@, Json::Int(self.w as int)).insert("h"@, Json::Int(self.h as int))
    }

    /// Reads the value under a key.
    pub fn get(&self, key: GeometryKey) -> (res: i64)
        ensures
            res == self.at(key),
    {
        match key {
            GeometryKey::X => self.x,
            GeometryKey::Y => self.y,
            GeometryKey::W => self.w,
            GeometryKey::H => self.h,
        }
    }

    /// Writes the keys of a patch over this placement.
    pub fn merge(&self, patch: &PlacementPatch) -> (res: Placement)
        ensures
            res == self.merged(*patch),
    {
        Placement {
            x: match patch.x { Some(v) => v, None => self.x },
            y: match patch.y { Some(v) => v, None => self.y },
            w: match patch.w { Some(v) => v, None => self.w },
            h: match patch.h { Some(v) => v, None => self.h },
        }
    }

    /// Computes the first row below the rectangle.
    pub fn lower_edge(&self) -> (res: i64)
        ensures
            res == self.row_below(),
    {
        match self.y.checked_add(self.h) {
            Some(sum) => sum,
            None => if self.y > 0 { i64::MAX } else { i64::MIN },
        }
    }
}

/// The placement preview that the editor and the add-element window share.
/// It always holds the four keys.
#[derive(Clone, Copy, Debug, PartialEq, Eq, Structural)]
pub struct ElementGhost {
    placement: Placement,
}

impl View for ElementGhost {
    type V = Placement;

    closed spec fn view(&self) -> Placement {
        self.placement
    }
}

impl ElementGhost {
    /// A preview of one cell at the grid's origin.
    pub fn new() -> (res: ElementGhost)
        ensures
            res@ == (Placement { x: 0, y: 0, w: 1, h: 1 }),
    {
        ElementGhost { placement: Placement { x: 0, y: 0, w: 1, h: 1 } }
    }

    /// Merges the keys that a patch carries into the preview; the other keys
    /// keep their values.
    pub fn update_placement(&mut self, patch: PlacementPatch)
        ensures
            final(self)@ == old(self)@.merged(patch),
    {
        self.placement = self.placement.merge(&patch);
    }

    /// Applies a transform to the value under a key. A name that is no
    /// geometry key changes nothing.
    pub fn entry_and_modify<F: FnOnce(i64) -> i64>(&mut self, key: &str, f: F)
        requires
            geometry_key_of(key@) matches Some(k) ==> f.requires((old(self)@.at(k),)),
        ensures
            match geometry_key_of(key@) {
                Some(k) => f.ensures((old(self)@.at(k),), final(self)@.at(k)) && final(self)@
                    == old(self)@.with(k, final(self)@.at(k)),
                None => final(self)@ == old(self)@,
            },
    {
        match GeometryKey::from_name(key) {
            Some(k) => {
                let value: i64 = f(self.placement.get(k));
                self.set(k, value);
            },
            None => {},
        }
    }

    /// Sets the value under a key.
    pub fn set(&mut self, key: GeometryKey, value: i64)
        ensures
            final(self)@ == old(self)@.with(key, value),
    {
        match key {
            GeometryKey::X => { self.placement.x = value; },
            GeometryKey::Y => { self.placement.y = value; },
            GeometryKey::W => { self.placement.w = value; },
            GeometryKey::H => { self.placement.h = value; },
        }
    }

    /// The preview as a placement.
    pub fn get_placement(&self) -> (res: Placement)
        ensures
            res == self@,
    {
        self.placement
    }

    /// The preview as a JSON object with the members `x`, `y`, `w` and `h`.
    pub fn get_placement_as_map(&self) -> (res: serde_json::Map<String, serde_json::Value>)
        ensures
            object_fields(res) == self@.fields(),
    {
        let mut object = empty_object();
        set_member(&mut object, "x".to_owned(), int_value(self.placement.x));
        set_member(&mut object, "y".to_owned(), int_value(self.placement.y));
        set_member(&mut object, "w".to_owned(), int_value(self.placement.w));
        set_member(&mut object, "h".to_owned(), int_value(self.placement.h));
        object
    }
}

} // verus!
