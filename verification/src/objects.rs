//! Placed level objects: their stored form, their validated color-trigger
//! parameters, and the catalog mapping a type id to its behavioral
//! category.

use vstd::prelude::*;

verus! {

/// Validated parameters of a color trigger: a color and which channel it
/// recolors (1 the background, 2 the ground).
#[derive(Clone, Copy, Debug, PartialEq, Eq, Structural)]
pub struct TriggerProps {
    pub red: u8,
    pub green: u8,
    pub blue: u8,
    pub kind: u8,
}

/// One placed object of a level. Coordinates are whole design pixels on
/// the 40-pixel grid (possibly negative); rotation is one of 0, +-90,
/// +-180, +-270.
#[derive(Clone, Copy, Debug)]
pub struct ObjectStruct {
    pub y: i32,
    pub x: i32,
    pub rotation: i16,
    /// Excluded from every collision check when set (still stored and drawn).
    pub no_touch: bool,
    /// Excluded from rendering when set (still collides).
    pub hide: bool,
    /// The object type id, keying the catalog.
    pub id: u32,
    /// Editor-only selection mark; gameplay never reads it.
    pub selected: bool,
    /// Color-trigger parameters; present exactly on color triggers.
    pub properties: Option<TriggerProps>,
}

/// Mathematical view of an object.
pub struct ObjectModel {
    pub y: int,
    pub x: int,
    pub rotation: int,
    pub no_touch: bool,
    pub hide: bool,
    pub id: int,
    pub selected: bool,
    pub properties: Option<TriggerProps>,
}

impl DeepView for ObjectStruct {
    type V = ObjectModel;

    open spec fn deep_view(&self) -> ObjectModel {
        self.view()
    }
}

impl View for ObjectStruct {
    type V = ObjectModel;

    open spec fn view(&self) -> ObjectModel {
        ObjectModel {
            y: self.y as int,
            x: self.x as int,
            rotation: self.rotation as int,
            no_touch: self.no_touch,
            hide: self.hide,
            id: self.id as int,
            selected: self.selected,
            properties: self.properties,
        }
    }
}

/// Bound on object grid coordinates accepted by the simulation and the
/// editor; keeps every derived hitbox coordinate in machine range.
pub const COORD_LIMIT: i32 = 100_000_000;

impl ObjectModel {
    /// Well-formedness: coordinates in machine-safe range, and a color
    /// trigger always carries its validated parameters.
    pub open spec fn wf(self) -> bool {
        &&& -COORD_LIMIT <= self.x <= COORD_LIMIT
        &&& -COORD_LIMIT <= self.y <= COORD_LIMIT
        &&& self.id == 23 ==> self.properties is Some
    }
}

impl ObjectStruct {
    /// Well-formedness of the stored object.
    pub open spec fn wf(self) -> bool {
        self@.wf()
    }

    /// A freshly placed object of the given type at a grid position, as
    /// the editor's build tab creates it: unrotated, touchable, visible,
    /// with stock gray background-recolor parameters on a color trigger.
    pub fn new_placed(x: i32, y: i32, id: u32) -> (o: ObjectStruct)
        ensures
            o@ == (ObjectModel {
                y: y as int,
                x: x as int,
                rotation: 0,
                no_touch: false,
                hide: false,
                id: id as int,
                selected: false,
                properties: if id == 23 {
                    Some(TriggerProps { red: 50, green: 50, blue: 50, kind: 1 })
                } else {
                    None::<TriggerProps>
                },
            }),
    {
        ObjectStruct {
            y,
            x,
            rotation: 0,
            no_touch: false,
            hide: false,
            id,
            selected: false,
            properties: if id == 23 {
                Some(TriggerProps { red: 50, green: 50, blue: 50, kind: 1 })
            } else {
                None
            },
        }
    }
}

/// The behavioral category of an object type, as the catalog fixes it.
#[derive(Clone, Copy, Debug, PartialEq, Eq, Structural)]
pub enum ObjectCategory {
    /// Kills on contact (spike, short spike).
    Hazard,
    /// Solid block: lands, carries, kills on its edge.
    Solid,
    /// Fires an impulse on proximity alone.
    Pad,
    /// Fires an impulse only when the action is pressed over it.
    Orb,
    /// Sets gravity and jump force to a fixed orientation.
    GravityPortal,
    /// Sets the movement mode.
    ModePortal,
    /// Sets the movement speed to a multiple of the default.
    SpeedPortal,
    /// Ends the level and awards progress.
    EndTrigger,
    /// Recolors the background or the ground once per contact.
    ColorTrigger,
    /// Stored and drawn but with no gameplay effect.
    Decoration,
}

/// The fixed catalog: which category each type id of the object set
/// (1 through 25) belongs to; ids outside the set are decoration.
pub open spec fn spec_category_of(id: int) -> ObjectCategory {
    if id == 1 || id == 7 {
        ObjectCategory::Hazard
    } else if id == 2 || (10 <= id <= 14) {
        ObjectCategory::Solid
    } else if id == 3 || id == 21 {
        ObjectCategory::Pad
    } else if id == 4 || id == 22 {
        ObjectCategory::Orb
    } else if id == 5 || id == 6 {
        ObjectCategory::GravityPortal
    } else if id == 8 || id == 9 || id == 24 || id == 25 {
        ObjectCategory::ModePortal
    } else if 17 <= id <= 20 {
        ObjectCategory::SpeedPortal
    } else if id == 15 {
        ObjectCategory::EndTrigger
    } else if id == 23 {
        ObjectCategory::ColorTrigger
    } else {
        ObjectCategory::Decoration
    }
}

/// Looks a type id up in the catalog.
pub fn category_of(id: u32) -> (c: ObjectCategory)
    ensures
        c == spec_category_of(id as int),
{
    if id == 1 || id == 7 {
        ObjectCategory::Hazard
    } else if id == 2 || (10 <= id && id <= 14) {
        ObjectCategory::Solid
    } else if id == 3 || id == 21 {
        ObjectCategory::Pad
    } else if id == 4 || id == 22 {
        ObjectCategory::Orb
    } else if id == 5 || id == 6 {
        ObjectCategory::GravityPortal
    } else if id == 8 || id == 9 || id == 24 || id == 25 {
        ObjectCategory::ModePortal
    } else if 17 <= id && id <= 20 {
        ObjectCategory::SpeedPortal
    } else if id == 15 {
        ObjectCategory::EndTrigger
    } else if id == 23 {
        ObjectCategory::ColorTrigger
    } else {
        ObjectCategory::Decoration
    }
}

/// Whether a rotation selects the upright orientation of a portal's
/// interaction region (a tall 20 by 80 box); any other rotation selects
/// the perpendicular, wide orientation.
pub open spec fn spec_upright(rotation: int) -> bool {
    rotation == 0 || rotation == 180 || rotation == -180
}

} // verus!
