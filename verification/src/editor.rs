//! The level editor's grid operations: placing, selecting and deleting
//! objects at a snapped grid cell, and the keyboard edits on the current
//! selection — deletion, movement, nudging, rotation and the start
//! position pan.

use vstd::prelude::*;
use crate::objects::{ObjectStruct, ObjectModel, TriggerProps};

verus! {

/// The editor's active tab: it decides what a click on the grid does.
#[derive(Clone, Copy, Debug, PartialEq, Eq, Structural)]
pub enum EditorTab {
    Build,
    Edit,
    Delete,
}

/// What the object-settings panel shows after a selection.
#[derive(Clone, Copy, Debug, PartialEq, Eq, Structural)]
pub struct EditUiState {
    /// The selected object is excluded from collisions.
    pub no_touch_on: bool,
    /// The selected object is hidden from rendering.
    pub hide_on: bool,
    /// The selected object has editable settings (a color trigger).
    pub has_settings: bool,
}

/// Snapping of a grid coordinate: negative cells shift down one cell, so
/// that cell boundaries fall the same way on both sides of the origin.
pub open spec fn spec_snap(v: int) -> int {
    if v < 0 {
        v - 40
    } else {
        v
    }
}

/// The object the build tab places: unrotated, touchable, visible, with
/// the stock parameters on a color trigger.
pub open spec fn spec_placed_object(x: int, y: int, id: int) -> ObjectModel {
    ObjectModel {
        y: y,
        x: x,
        rotation: 0,
        no_touch: false,
        hide: false,
        id: id,
        selected: false,
        properties: if id == 23 {
            Some(TriggerProps { red: 50, green: 50, blue: 50, kind: 1 })
        } else {
            None
        },
    }
}

/// The first store position at or after `i` holding an object at exactly
/// the given cell; the store length when there is none.
pub open spec fn spec_find_at(store: Seq<ObjectModel>, x: int, y: int, i: int) -> int
    decreases store.len() - i,
{
    if i < 0 || i >= store.len() {
        store.len() as int
    } else if store[i].x == x && store[i].y == y {
        i
    } else {
        spec_find_at(store, x, y, i + 1)
    }
}

/// The first store position at or after `i` holding a not-yet-selected
/// object at exactly the given cell; the store length when there is
/// none.
pub open spec fn spec_find_unselected_at(store: Seq<ObjectModel>, x: int, y: int, i: int) -> int
    decreases store.len() - i,
{
    if i < 0 || i >= store.len() {
        store.len() as int
    } else if store[i].x == x && store[i].y == y && !store[i].selected {
        i
    } else {
        spec_find_unselected_at(store, x, y, i + 1)
    }
}

/// The store with every selection mark dropped.
pub open spec fn spec_clear_selected(store: Seq<ObjectModel>) -> Seq<ObjectModel> {
    Seq::new(store.len(), |k: int| ObjectModel { selected: false, ..store[k] })
}

/// What the edit tab does to the store: nothing without a selectable
/// object at the cell; otherwise, unless shift extends the selection,
/// every other mark is dropped, and the found object is marked.
pub open spec fn spec_edit_select(store: Seq<ObjectModel>, x: int, y: int, shift_held: bool) -> Seq<ObjectModel> {
    let i = spec_find_unselected_at(store, x, y, 0);
    if i < store.len() {
        let base = if shift_held {
            store
        } else {
            spec_clear_selected(store)
        };
        base.update(i, ObjectModel { selected: true, ..store[i] })
    } else {
        store
    }
}

/// What the delete tab does to the store: the first object at the cell
/// leaves, the rest keep their order.
pub open spec fn spec_delete_at(store: Seq<ObjectModel>, x: int, y: int) -> Seq<ObjectModel> {
    let i = spec_find_at(store, x, y, 0);
    if i < store.len() {
        store.remove(i)
    } else {
        store
    }
}

/// Finds the first object at the cell, or the store length.
fn find_at(object_grid: &Vec<ObjectStruct>, x: i32, y: i32) -> (r: usize)
    ensures
        r as int == spec_find_at(object_grid.deep_view(), x as int, y as int, 0),
        r <= object_grid@.len(),
{
    let ghost store = object_grid.deep_view();
    let mut i: usize = 0;
    while i < object_grid.len()
        invariant
            0 <= i <= store.len(),
            store == object_grid.deep_view(),
            spec_find_at(store, x as int, y as int, 0) == spec_find_at(store, x as int, y as int, i as int),
        decreases store.len() - i,
    {
        if object_grid[i].x == x && object_grid[i].y == y {
            return i;
        }
        i += 1;
    }
    i
}

/// Finds the first not-yet-selected object at the cell, or the store
/// length.
fn find_unselected_at(object_grid: &Vec<ObjectStruct>, x: i32, y: i32) -> (r: usize)
    ensures
        r as int == spec_find_unselected_at(object_grid.deep_view(), x as int, y as int, 0),
        r <= object_grid@.len(),
{
    let ghost store = object_grid.deep_view();
    let mut i: usize = 0;
    while i < object_grid.len()
        invariant
            0 <= i <= store.len(),
            store == object_grid.deep_view(),
            spec_find_unselected_at(store, x as int, y as int, 0)
                == spec_find_unselected_at(store, x as int, y as int, i as int),
        decreases store.len() - i,
    {
        if object_grid[i].x == x && object_grid[i].y == y && !object_grid[i].selected {
            return i;
        }
        i += 1;
    }
    i
}

/// Drops every selection mark in place.
fn clear_selected(object_grid: &mut Vec<ObjectStruct>)
    ensures
        final(object_grid).deep_view() == spec_clear_selected(old(object_grid).deep_view()),
{
    let ghost store = old(object_grid).deep_view();
    let mut i: usize = 0;
    while i < object_grid.len()
        invariant
            0 <= i <= store.len(),
            object_grid@.len() == store.len(),
            forall|k: int| 0 <= k < i ==> object_grid.deep_view()[k]
                == spec_clear_selected(store)[k],
            forall|k: int| i <= k < store.len() ==> object_grid.deep_view()[k] == store[k],
        decreases store.len() - i,
    {
        let mut o = object_grid[i];
        o.selected = false;
        object_grid.set(i, o);
        i += 1;
    }
    proof {
        assert(object_grid.deep_view() =~= spec_clear_selected(store));
    }
}

/// A click on the editor grid: the build tab places the current object
/// at the snapped cell, the delete tab removes the first object there,
/// and the edit tab selects the first selectable object there, reporting
/// its flags and its id for the settings panel.
pub fn object_ped(
    object_grid: &mut Vec<ObjectStruct>,
    active_tab: EditorTab,
    snapped_x: i32,
    snapped_y: i32,
    current_object: u32,
    selected_object: &mut u16,
    shift_held: bool,
) -> (ui: Option<EditUiState>)
    requires
        i32::MIN + 40 <= snapped_x,
        i32::MIN + 40 <= snapped_y,
    ensures
        ({
            let store = old(object_grid).deep_view();
            let x = spec_snap(snapped_x as int);
            let y = spec_snap(snapped_y as int);
            match active_tab {
                EditorTab::Build => {
                    &&& final(object_grid).deep_view()
                        == store.push(spec_placed_object(x, y, current_object as int))
                    &&& *final(selected_object) == *old(selected_object)
                    &&& ui is None
                },
                EditorTab::Delete => {
                    &&& final(object_grid).deep_view() == spec_delete_at(store, x, y)
                    &&& *final(selected_object) == *old(selected_object)
                    &&& ui is None
                },
                EditorTab::Edit => {
                    let i = spec_find_unselected_at(store, x, y, 0);
                    &&& final(object_grid).deep_view() == spec_edit_select(store, x, y, shift_held)
                    &&& if i < store.len() {
                        &&& *final(selected_object) == store[i].id as u16
                        &&& ui == Some(EditUiState {
                            no_touch_on: store[i].no_touch,
                            hide_on: store[i].hide,
                            has_settings: store[i].id == 23,
                        })
                    } else {
                        &&& *final(selected_object) == *old(selected_object)
                        &&& ui is None
                    }
                },
            }
        }),
{
    let ghost store = old(object_grid).deep_view();
    let x = if snapped_x < 0 { snapped_x - 40 } else { snapped_x };
    let y = if snapped_y < 0 { snapped_y - 40 } else { snapped_y };
    match active_tab {
        EditorTab::Build => {
            let placed = ObjectStruct::new_placed(x, y, current_object);
            object_grid.push(placed);
            proof {
                assert(object_grid.deep_view()
                    =~= store.push(spec_placed_object(x as int, y as int, current_object as int)));
            }
            None
        },
        EditorTab::Delete => {
            let i = find_at(object_grid, x, y);
            if i < object_grid.len() {
                object_grid.remove(i);
                proof {
                    assert(object_grid.deep_view() =~= store.remove(i as int));
                }
            }
            None
        },
        EditorTab::Edit => {
            let i = find_unselected_at(object_grid, x, y);
            if i < object_grid.len() {
                let found = object_grid[i];
                if !shift_held {
                    clear_selected(object_grid);
                    proof {
                        assert(spec_clear_selected(store).len() == store.len());
                        assert(object_grid.deep_view().len() == object_grid@.len());
                        assert(object_grid@.len() == store.len());
                    }
                }
                let mut o = found;
                o.selected = true;
                object_grid.set(i, o);
                *selected_object = found.id as u16;
                proof {
                    assert(object_grid.deep_view()
                        =~= spec_edit_select(store, x as int, y as int, shift_held));
                }
                Some(EditUiState {
                    no_touch_on: found.no_touch,
                    hide_on: found.hide,
                    has_settings: found.id == 23,
                })
            } else {
                None
            }
        },
    }
}

/// The editor keys read each tick, one flag per binding.
#[derive(Clone, Copy, Debug)]
pub struct EditorKeys {
    /// Remove the selection.
    pub delete_pressed: bool,
    /// Move the selection one cell left, right, up, down.
    pub move_left: bool,
    pub move_right: bool,
    pub move_up: bool,
    pub move_down: bool,
    /// Nudge the selection one pixel left, right, up, down.
    pub nudge_left: bool,
    pub nudge_right: bool,
    pub nudge_up: bool,
    pub nudge_down: bool,
    /// Rotate the selection a quarter turn either way.
    pub rotate_ccw: bool,
    pub rotate_cw: bool,
    /// Pan the playtest start position forward or back.
    pub pan_forward: bool,
    pub pan_back: bool,
    /// The modifier that turns panning into large steps.
    pub ctrl_held: bool,
}

/// The store and start position after the keyboard edits.
pub struct KeybindsModel {
    pub store: Seq<ObjectModel>,
    pub start_pos: int,
}

/// The store without its selected objects, collected from position `i`
/// on in order.
pub open spec fn spec_keep_unselected_from(acc: Seq<ObjectModel>, store: Seq<ObjectModel>, i: int) -> Seq<ObjectModel>
    decreases store.len() - i,
{
    if i < 0 || i >= store.len() {
        acc
    } else {
        spec_keep_unselected_from(
            if store[i].selected {
                acc
            } else {
                acc.push(store[i])
            },
            store,
            i + 1,
        )
    }
}

/// Deleting the selection keeps exactly the unselected objects, in
/// order.
pub open spec fn spec_delete_selected(store: Seq<ObjectModel>) -> Seq<ObjectModel> {
    spec_keep_unselected_from(Seq::<ObjectModel>::empty(), store, 0)
}

/// Every selected object moved by the given offsets.
pub open spec fn spec_translate_selected(store: Seq<ObjectModel>, dx: int, dy: int) -> Seq<ObjectModel> {
    Seq::new(
        store.len(),
        |k: int| if store[k].selected {
            ObjectModel { x: store[k].x + dx, y: store[k].y + dy, ..store[k] }
        } else {
            store[k]
        },
    )
}

/// Every selected object turned a quarter clockwise, wrapping a full
/// turn back to zero.
pub open spec fn spec_rotate_selected_cw(store: Seq<ObjectModel>) -> Seq<ObjectModel> {
    Seq::new(
        store.len(),
        |k: int| if store[k].selected {
            ObjectModel {
                rotation: if store[k].rotation != 270 {
                    store[k].rotation + 90
                } else {
                    0
                },
                ..store[k]
            }
        } else {
            store[k]
        },
    )
}

/// Every selected object turned a quarter counterclockwise, wrapping a
/// full turn back to zero.
pub open spec fn spec_rotate_selected_ccw(store: Seq<ObjectModel>) -> Seq<ObjectModel> {
    Seq::new(
        store.len(),
        |k: int| if store[k].selected {
            ObjectModel {
                rotation: if store[k].rotation != -270 {
                    store[k].rotation - 90
                } else {
                    0
                },
                ..store[k]
            }
        } else {
            store[k]
        },
    )
}

/// Machine-range bounds under which all of one tick's keyboard edits
/// stay in `i32` and `i16` range.
pub open spec fn spec_kb_obj_ok(o: ObjectModel) -> bool {
    &&& i32::MIN + 250 <= o.x <= i32::MAX - 250
    &&& i32::MIN + 250 <= o.y <= i32::MAX - 250
    &&& -32000 <= o.rotation <= 32000
}

/// Every object within `d` of the coordinate range's ends and within
/// `rmax` of zero rotation.
pub open spec fn spec_kb_box(store: Seq<ObjectModel>, d: int, rmax: int) -> bool {
    forall|k: int| 0 <= k < store.len() ==> {
        let o = #[trigger] store[k];
        &&& i32::MIN + d <= o.x <= i32::MAX - d
        &&& i32::MIN + d <= o.y <= i32::MAX - d
        &&& -rmax <= o.rotation <= rmax
    }
}

/// Moving the selection by at most `w` keeps every object in a box
/// narrower by `w`.
proof fn lemma_translate_box(store: Seq<ObjectModel>, dx: int, dy: int, d: int, rmax: int, w: int)
    requires
        spec_kb_box(store, d, rmax),
        0 <= w,
        w <= d,
        -w <= dx <= w,
        -w <= dy <= w,
    ensures
        spec_kb_box(spec_translate_selected(store, dx, dy), d - w, rmax),
{
    let r = spec_translate_selected(store, dx, dy);
    assert forall|k: int| 0 <= k < r.len() implies {
        let o = #[trigger] r[k];
        &&& i32::MIN + (d - w) <= o.x <= i32::MAX - (d - w)
        &&& i32::MIN + (d - w) <= o.y <= i32::MAX - (d - w)
        &&& -rmax <= o.rotation <= rmax
    } by {
        assert(spec_kb_box(store, d, rmax));
        assert(i32::MIN + d <= store[k].x <= i32::MAX - d);
    }
}

/// A quarter turn keeps every object's rotation within a band wider by a
/// quarter turn, and its coordinates where they were.
proof fn lemma_rotate_box(store: Seq<ObjectModel>, cw: bool, d: int, rmax: int)
    requires
        spec_kb_box(store, d, rmax),
        0 <= rmax,
    ensures
        spec_kb_box(if cw { spec_rotate_selected_cw(store) } else { spec_rotate_selected_ccw(store) }, d, rmax + 90),
{
    let r = if cw { spec_rotate_selected_cw(store) } else { spec_rotate_selected_ccw(store) };
    assert forall|k: int| 0 <= k < r.len() implies {
        let o = #[trigger] r[k];
        &&& i32::MIN + d <= o.x <= i32::MAX - d
        &&& i32::MIN + d <= o.y <= i32::MAX - d
        &&& -(rmax + 90) <= o.rotation <= rmax + 90
    } by {
        assert(spec_kb_box(store, d, rmax));
        assert(-rmax <= store[k].rotation <= rmax);
    }
}

/// The combined effect of one tick's editor keys, applied in the fixed
/// order delete, cell moves, pixel nudges, rotations, pan.
pub open spec fn spec_keybinds(store: Seq<ObjectModel>, keys: EditorKeys, sp: int) -> KeybindsModel {
    let step: int = if keys.ctrl_held { 25 } else { 5 };
    let sp1 = if keys.pan_forward { sp + step } else { sp };
    let sp2 = if keys.pan_back && sp1 > 0 { sp1 - step } else { sp1 };
    KeybindsModel { store: spec_keybinds_store(store, keys), start_pos: sp2 }
}

/// Removes the selected objects in place.
fn delete_selected(object_grid: &mut Vec<ObjectStruct>)
    ensures
        final(object_grid).deep_view() == spec_delete_selected(old(object_grid).deep_view()),
{
    let ghost store = old(object_grid).deep_view();
    let mut out: Vec<ObjectStruct> = Vec::new();
    let mut i: usize = 0;
    proof {
        assert(out.deep_view() =~= Seq::<ObjectModel>::empty());
    }
    while i < object_grid.len()
        invariant
            0 <= i <= store.len(),
            store == object_grid.deep_view(),
            spec_keep_unselected_from(Seq::<ObjectModel>::empty(), store, 0)
                == spec_keep_unselected_from(out.deep_view(), store, i as int),
        decreases store.len() - i,
    {
        let ghost out0 = out.deep_view();
        if !object_grid[i].selected {
            let o = object_grid[i];
            out.push(o);
            proof {
                assert(out.deep_view() =~~= out0.push(store[i as int]));
            }
        }
        i += 1;
    }
    *object_grid = out;
}

/// Moves the selected objects in place.
fn translate_selected(object_grid: &mut Vec<ObjectStruct>, dx: i32, dy: i32)
    requires
        -40 <= dx <= 40,
        -40 <= dy <= 40,
        forall|k: int| 0 <= k < old(object_grid).deep_view().len()
            ==> (#[trigger] old(object_grid).deep_view()[k]).selected
            ==> i32::MIN <= old(object_grid).deep_view()[k].x + dx <= i32::MAX
                && i32::MIN <= old(object_grid).deep_view()[k].y + dy <= i32::MAX,
    ensures
        final(object_grid).deep_view()
            == spec_translate_selected(old(object_grid).deep_view(), dx as int, dy as int),
{
    let ghost store = old(object_grid).deep_view();
    let ghost target = spec_translate_selected(store, dx as int, dy as int);
    let mut out: Vec<ObjectStruct> = Vec::new();
    let mut i: usize = 0;
    proof {
        assert(out.deep_view() =~= target.subrange(0, 0));
    }
    while i < object_grid.len()
        invariant
            0 <= i <= store.len(),
            -40 <= dx <= 40,
            -40 <= dy <= 40,
            store == object_grid.deep_view(),
            target == spec_translate_selected(store, dx as int, dy as int),
            forall|k: int| 0 <= k < store.len() ==> (#[trigger] store[k]).selected
                ==> i32::MIN <= store[k].x + dx <= i32::MAX
                    && i32::MIN <= store[k].y + dy <= i32::MAX,
            out.deep_view() == target.subrange(0, i as int),
        decreases store.len() - i,
    {
        let ghost out0 = out.deep_view();
        let mut o = object_grid[i];
        proof {
            assert(o@ == store[i as int]);
        }
        if o.selected {
            o.x = o.x + dx;
            o.y = o.y + dy;
        }
        out.push(o);
        proof {
            assert(out.deep_view() =~~= out0.push(target[i as int]));
            assert(target.subrange(0, i + 1) =~= target.subrange(0, i as int).push(target[i as int]));
        }
        i += 1;
    }
    proof {
        assert(target.subrange(0, store.len() as int) =~= target);
    }
    *object_grid = out;
}

/// Turns the selected objects a quarter clockwise in place.
fn rotate_selected_cw(object_grid: &mut Vec<ObjectStruct>)
    requires
        forall|k: int| 0 <= k < old(object_grid).deep_view().len()
            ==> (#[trigger] old(object_grid).deep_view()[k]).selected
            ==> old(object_grid).deep_view()[k].rotation + 90 <= i16::MAX,
    ensures
        final(object_grid).deep_view() == spec_rotate_selected_cw(old(object_grid).deep_view()),
{
    let ghost store = old(object_grid).deep_view();
    let ghost target = spec_rotate_selected_cw(store);
    let mut out: Vec<ObjectStruct> = Vec::new();
    let mut i: usize = 0;
    proof {
        assert(out.deep_view() =~= target.subrange(0, 0));
    }
    while i < object_grid.len()
        invariant
            0 <= i <= store.len(),
            store == object_grid.deep_view(),
            target == spec_rotate_selected_cw(store),
            forall|k: int| 0 <= k < store.len() ==> (#[trigger] store[k]).selected
                ==> store[k].rotation + 90 <= i16::MAX,
            out.deep_view() == target.subrange(0, i as int),
        decreases store.len() - i,
    {
        let ghost out0 = out.deep_view();
        let mut o = object_grid[i];
        proof {
            assert(o@ == store[i as int]);
        }
        if o.selected {
            o.rotation = if o.rotation != 270 { o.rotation + 90 } else { 0 };
        }
        out.push(o);
        proof {
            assert(out.deep_view() =~~= out0.push(target[i as int]));
            assert(target.subrange(0, i + 1) =~= target.subrange(0, i as int).push(target[i as int]));
        }
        i += 1;
    }
    proof {
        assert(target.subrange(0, store.len() as int) =~= target);
    }
    *object_grid = out;
}

/// Turns the selected objects a quarter counterclockwise in place.
fn rotate_selected_ccw(object_grid: &mut Vec<ObjectStruct>)
    requires
        forall|k: int| 0 <= k < old(object_grid).deep_view().len()
            ==> (#[trigger] old(object_grid).deep_view()[k]).selected
            ==> i16::MIN <= old(object_grid).deep_view()[k].rotation - 90,
    ensures
        final(object_grid).deep_view() == spec_rotate_selected_ccw(old(object_grid).deep_view()),
{
    let ghost store = old(object_grid).deep_view();
    let ghost target = spec_rotate_selected_ccw(store);
    let mut out: Vec<ObjectStruct> = Vec::new();
    let mut i: usize = 0;
    proof {
        assert(out.deep_view() =~= target.subrange(0, 0));
    }
    while i < object_grid.len()
        invariant
            0 <= i <= store.len(),
            store == object_grid.deep_view(),
            target == spec_rotate_selected_ccw(store),
            forall|k: int| 0 <= k < store.len() ==> (#[trigger] store[k]).selected
                ==> i16::MIN <= store[k].rotation - 90,
            out.deep_view() == target.subrange(0, i as int),
        decreases store.len() - i,
    {
        let ghost out0 = out.deep_view();
        let mut o = object_grid[i];
        proof {
            assert(o@ == store[i as int]);
        }
        if o.selected {
            o.rotation = if o.rotation != -270 { o.rotation - 90 } else { 0 };
        }
        out.push(o);
        proof {
            assert(out.deep_view() =~~= out0.push(target[i as int]));
            assert(target.subrange(0, i + 1) =~= target.subrange(0, i as int).push(target[i as int]));
        }
        i += 1;
    }
    proof {
        assert(target.subrange(0, store.len() as int) =~= target);
    }
    *object_grid = out;
}

/// Every object the deletion keeps satisfies the keyboard-edit bounds
/// when every object of the store and of the collected prefix does.
proof fn lemma_keep_unselected_ok(acc: Seq<ObjectModel>, store: Seq<ObjectModel>, i: int)
    requires
        forall|k: int| 0 <= k < acc.len() ==> spec_kb_obj_ok(#[trigger] acc[k]),
        forall|k: int| 0 <= k < store.len() ==> spec_kb_obj_ok(#[trigger] store[k]),
    ensures
        forall|k: int| 0 <= k < spec_keep_unselected_from(acc, store, i).len()
            ==> spec_kb_obj_ok(#[trigger] spec_keep_unselected_from(acc, store, i)[k]),
    decreases store.len() - i,
{
    if i < 0 || i >= store.len() {
        assert(spec_keep_unselected_from(acc, store, i) == acc);
    } else {
        if store[i].selected {
            lemma_keep_unselected_ok(acc, store, i + 1);
            assert(spec_keep_unselected_from(acc, store, i)
                == spec_keep_unselected_from(acc, store, i + 1));
        } else {
            let acc2 = acc.push(store[i]);
            assert forall|k: int| 0 <= k < acc2.len() implies spec_kb_obj_ok(#[trigger] acc2[k]) by {
                if k < acc.len() {
                    assert(acc2[k] == acc[k]);
                } else {
                    assert(acc2[k] == store[i]);
                }
            }
            lemma_keep_unselected_ok(acc2, store, i + 1);
            assert(spec_keep_unselected_from(acc, store, i)
                == spec_keep_unselected_from(acc2, store, i + 1));
        }
    }
}

/// The store after one tick's editor keys, before the pan.
pub open spec fn spec_keybinds_store(store: Seq<ObjectModel>, keys: EditorKeys) -> Seq<ObjectModel> {
    let s1 = if keys.delete_pressed { spec_delete_selected(store) } else { store };
    let s2 = if keys.move_left { spec_translate_selected(s1, -40, 0) } else { s1 };
    let s3 = if keys.move_right { spec_translate_selected(s2, 40, 0) } else { s2 };
    let s4 = if keys.move_up { spec_translate_selected(s3, 0, -40) } else { s3 };
    let s5 = if keys.move_down { spec_translate_selected(s4, 0, 40) } else { s4 };
    let s6 = if keys.nudge_left { spec_translate_selected(s5, -1, 0) } else { s5 };
    let s7 = if keys.nudge_right { spec_translate_selected(s6, 1, 0) } else { s6 };
    let s8 = if keys.nudge_up { spec_translate_selected(s7, 0, -1) } else { s7 };
    let s9 = if keys.nudge_down { spec_translate_selected(s8, 0, 1) } else { s8 };
    let s10 = if keys.rotate_ccw { spec_rotate_selected_ccw(s9) } else { s9 };
    if keys.rotate_cw { spec_rotate_selected_cw(s10) } else { s10 }
}

/// Applies the store half of the editor keys: delete, cell moves, pixel
/// nudges, rotations, in that order.
#[verifier::rlimit(100)]
fn apply_store_keys(object_grid: &mut Vec<ObjectStruct>, keys: &EditorKeys)
    requires
        forall|k: int| 0 <= k < old(object_grid).deep_view().len()
            ==> spec_kb_obj_ok(#[trigger] old(object_grid).deep_view()[k]),
    ensures
        final(object_grid).deep_view() == spec_keybinds_store(old(object_grid).deep_view(), *keys),
{
    let ghost store = old(object_grid).deep_view();
    proof {
        assert(spec_kb_box(store, 250, 32000));
    }
    let ghost s1 = if keys.delete_pressed { spec_delete_selected(store) } else { store };
    if keys.delete_pressed {
        delete_selected(object_grid);
    }
    proof {
        if keys.delete_pressed {
            lemma_keep_unselected_ok(Seq::<ObjectModel>::empty(), store, 0);
        }
        assert(spec_kb_box(s1, 250, 32000));
    }
    let ghost s2 = if keys.move_left { spec_translate_selected(s1, -40, 0) } else { s1 };
    if keys.move_left {
        translate_selected(object_grid, -40, 0);
    }
    proof {
        if keys.move_left {
            lemma_translate_box(s1, -40, 0, 250, 32000, 40);
        }
        assert(spec_kb_box(s2, 210, 32000));
    }
    let ghost s3 = if keys.move_right { spec_translate_selected(s2, 40, 0) } else { s2 };
    if keys.move_right {
        translate_selected(object_grid, 40, 0);
    }
    proof {
        if keys.move_right {
            lemma_translate_box(s2, 40, 0, 210, 32000, 40);
        }
        assert(spec_kb_box(s3, 170, 32000));
    }
    let ghost s4 = if keys.move_up { spec_translate_selected(s3, 0, -40) } else { s3 };
    if keys.move_up {
        translate_selected(object_grid, 0, -40);
    }
    proof {
        if keys.move_up {
            lemma_translate_box(s3, 0, -40, 170, 32000, 40);
        }
        assert(spec_kb_box(s4, 130, 32000));
    }
    let ghost s5 = if keys.move_down { spec_translate_selected(s4, 0, 40) } else { s4 };
    if keys.move_down {
        translate_selected(object_grid, 0, 40);
    }
    proof {
        if keys.move_down {
            lemma_translate_box(s4, 0, 40, 130, 32000, 40);
        }
        assert(spec_kb_box(s5, 90, 32000));
    }
    let ghost s6 = if keys.nudge_left { spec_translate_selected(s5, -1, 0) } else { s5 };
    if keys.nudge_left {
        translate_selected(object_grid, -1, 0);
    }
    proof {
        if keys.nudge_left {
            lemma_translate_box(s5, -1, 0, 90, 32000, 1);
        }
        assert(spec_kb_box(s6, 89, 32000));
    }
    let ghost s7 = if keys.nudge_right { spec_translate_selected(s6, 1, 0) } else { s6 };
    if keys.nudge_right {
        translate_selected(object_grid, 1, 0);
    }
    proof {
        if keys.nudge_right {
            lemma_translate_box(s6, 1, 0, 89, 32000, 1);
        }
        assert(spec_kb_box(s7, 88, 32000));
    }
    let ghost s8 = if keys.nudge_up { spec_translate_selected(s7, 0, -1) } else { s7 };
    if keys.nudge_up {
        translate_selected(object_grid, 0, -1);
    }
    proof {
        if keys.nudge_up {
            lemma_translate_box(s7, 0, -1, 88, 32000, 1);
        }
        assert(spec_kb_box(s8, 87, 32000));
    }
    let ghost s9 = if keys.nudge_down { spec_translate_selected(s8, 0, 1) } else { s8 };
    if keys.nudge_down {
        translate_selected(object_grid, 0, 1);
    }
    proof {
        if keys.nudge_down {
            lemma_translate_box(s8, 0, 1, 87, 32000, 1);
        }
        assert(spec_kb_box(s9, 86, 32000));
    }
    let ghost s10 = if keys.rotate_ccw { spec_rotate_selected_ccw(s9) } else { s9 };
    if keys.rotate_ccw {
        rotate_selected_ccw(object_grid);
    }
    proof {
        if keys.rotate_ccw {
            lemma_rotate_box(s9, false, 86, 32000);
        }
        assert(spec_kb_box(s10, 86, 32090));
    }
    if keys.rotate_cw {
        rotate_selected_cw(object_grid);
    }
}

/// Applies one tick of editor keys to the store and the start position:
/// delete, cell moves, pixel nudges, rotations, pan, in that order.
pub fn keybinds_manager(object_grid: &mut Vec<ObjectStruct>, keys: &EditorKeys, start_pos: &mut u16)
    requires
        forall|k: int| 0 <= k < old(object_grid).deep_view().len()
            ==> spec_kb_obj_ok(#[trigger] old(object_grid).deep_view()[k]),
        ({
            let step: int = if keys.ctrl_held { 25 } else { 5 };
            let sp1 = if keys.pan_forward { *old(start_pos) + step } else { *old(start_pos) as int };
            &&& (keys.pan_forward ==> *old(start_pos) + step <= u16::MAX)
            &&& (keys.pan_back && sp1 > 0 ==> sp1 >= step)
        }),
    ensures
        ({
            let out = spec_keybinds(old(object_grid).deep_view(), *keys, *old(start_pos) as int);
            &&& final(object_grid).deep_view() == out.store
            &&& *final(start_pos) as int == out.start_pos
        }),
{
    apply_store_keys(object_grid, keys);
    let step: u16 = if keys.ctrl_held { 25 } else { 5 };
    if keys.pan_forward {
        *start_pos = *start_pos + step;
    }
    if keys.pan_back && *start_pos > 0 {
        *start_pos = *start_pos - step;
    }
}

} // verus!
