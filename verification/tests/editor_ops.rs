//! Tests of the editor's grid operations and keyboard edits.

use geometry_rays::editor::{object_ped, keybinds_manager, EditorTab, EditorKeys, EditUiState};
use geometry_rays::objects::{ObjectStruct, TriggerProps};

fn object(x: i32, y: i32, id: u32, selected: bool) -> ObjectStruct {
    ObjectStruct {
        y,
        x,
        rotation: 0,
        no_touch: false,
        hide: false,
        id,
        selected,
        properties: if id == 23 {
            Some(TriggerProps { red: 50, green: 50, blue: 50, kind: 1 })
        } else {
            None
        },
    }
}

fn keys_none() -> EditorKeys {
    EditorKeys {
        delete_pressed: false,
        move_left: false,
        move_right: false,
        move_up: false,
        move_down: false,
        nudge_left: false,
        nudge_right: false,
        nudge_up: false,
        nudge_down: false,
        rotate_ccw: false,
        rotate_cw: false,
        pan_forward: false,
        pan_back: false,
        ctrl_held: false,
    }
}

/// The build tab pushes a fresh object at the snapped cell.
#[test]
fn build_places_object() {
    let mut grid: Vec<ObjectStruct> = vec![];
    let mut selected: u16 = 0;
    let ui = object_ped(&mut grid, EditorTab::Build, 120, 240, 7, &mut selected, false);
    assert!(ui.is_none());
    assert_eq!(grid.len(), 1);
    assert_eq!(grid[0].x, 120);
    assert_eq!(grid[0].y, 240);
    assert_eq!(grid[0].id, 7);
    assert_eq!(grid[0].rotation, 0);
    assert!(!grid[0].selected);
}

/// Negative snapped coordinates shift one cell further down.
#[test]
fn build_snaps_negative_cells() {
    let mut grid: Vec<ObjectStruct> = vec![];
    let mut selected: u16 = 0;
    object_ped(&mut grid, EditorTab::Build, -40, -1, 2, &mut selected, false);
    assert_eq!(grid[0].x, -80);
    assert_eq!(grid[0].y, -41);
}

/// A placed color trigger starts with the stock gray background
/// parameters.
#[test]
fn build_color_trigger_defaults() {
    let mut grid: Vec<ObjectStruct> = vec![];
    let mut selected: u16 = 0;
    object_ped(&mut grid, EditorTab::Build, 0, 0, 23, &mut selected, false);
    assert_eq!(
        grid[0].properties,
        Some(TriggerProps { red: 50, green: 50, blue: 50, kind: 1 })
    );
}

/// The delete tab removes the first object at the cell and nothing
/// else.
#[test]
fn delete_removes_first_match() {
    let mut grid = vec![object(40, 40, 1, false), object(40, 40, 2, false), object(80, 40, 3, false)];
    let mut selected: u16 = 0;
    let ui = object_ped(&mut grid, EditorTab::Delete, 40, 40, 1, &mut selected, false);
    assert!(ui.is_none());
    assert_eq!(grid.len(), 2);
    assert_eq!(grid[0].id, 2);
    assert_eq!(grid[1].id, 3);
    // Deleting at an empty cell changes nothing.
    object_ped(&mut grid, EditorTab::Delete, 200, 200, 1, &mut selected, false);
    assert_eq!(grid.len(), 2);
}

/// The edit tab selects the first selectable object at the cell,
/// reports its flags, and without shift drops every other mark.
#[test]
fn edit_selects_and_reports() {
    let mut first = object(40, 40, 23, false);
    first.no_touch = true;
    let mut grid = vec![object(80, 40, 1, true), first];
    let mut selected: u16 = 0;
    let ui = object_ped(&mut grid, EditorTab::Edit, 40, 40, 1, &mut selected, false);
    assert_eq!(
        ui,
        Some(EditUiState { no_touch_on: true, hide_on: false, has_settings: true })
    );
    assert_eq!(selected, 23);
    assert!(grid[1].selected);
    // The earlier selection was dropped because shift was up.
    assert!(!grid[0].selected);
}

/// With shift held the earlier selection stays.
#[test]
fn edit_shift_extends_selection() {
    let mut grid = vec![object(80, 40, 1, true), object(40, 40, 2, false)];
    let mut selected: u16 = 0;
    object_ped(&mut grid, EditorTab::Edit, 40, 40, 1, &mut selected, true);
    assert!(grid[0].selected);
    assert!(grid[1].selected);
}

/// A click on a cell with nothing selectable changes nothing.
#[test]
fn edit_misses_quietly() {
    let mut grid = vec![object(80, 40, 1, true)];
    let mut selected: u16 = 5;
    let ui = object_ped(&mut grid, EditorTab::Edit, 40, 40, 1, &mut selected, false);
    assert!(ui.is_none());
    assert_eq!(selected, 5);
    assert!(grid[0].selected);
}

/// The delete key removes exactly the selected objects.
#[test]
fn keybinds_delete_selected() {
    let mut grid = vec![object(0, 0, 1, true), object(40, 0, 2, false), object(80, 0, 3, true)];
    let mut start_pos: u16 = 0;
    let keys = EditorKeys { delete_pressed: true, ..keys_none() };
    keybinds_manager(&mut grid, &keys, &mut start_pos);
    assert_eq!(grid.len(), 1);
    assert_eq!(grid[0].id, 2);
}

/// The cell-move keys shift only the selection, by one cell.
#[test]
fn keybinds_moves_selection() {
    let mut grid = vec![object(0, 0, 1, true), object(40, 40, 2, false)];
    let mut start_pos: u16 = 0;
    let keys = EditorKeys { move_right: true, move_down: true, ..keys_none() };
    keybinds_manager(&mut grid, &keys, &mut start_pos);
    assert_eq!((grid[0].x, grid[0].y), (40, 40));
    assert_eq!((grid[1].x, grid[1].y), (40, 40));
}

/// The nudge keys shift the selection by one pixel.
#[test]
fn keybinds_nudges_selection() {
    let mut grid = vec![object(0, 0, 1, true)];
    let mut start_pos: u16 = 0;
    let keys = EditorKeys { nudge_left: true, nudge_up: true, ..keys_none() };
    keybinds_manager(&mut grid, &keys, &mut start_pos);
    assert_eq!((grid[0].x, grid[0].y), (-1, -1));
}

/// Rotation steps a quarter turn and wraps a full turn back to zero.
#[test]
fn keybinds_rotation_wraps() {
    let mut grid = vec![object(0, 0, 1, true)];
    let mut start_pos: u16 = 0;
    let cw = EditorKeys { rotate_cw: true, ..keys_none() };
    for expected in [90i16, 180, 270, 0] {
        keybinds_manager(&mut grid, &cw, &mut start_pos);
        assert_eq!(grid[0].rotation, expected);
    }
    let ccw = EditorKeys { rotate_ccw: true, ..keys_none() };
    for expected in [-90i16, -180, -270, 0] {
        keybinds_manager(&mut grid, &ccw, &mut start_pos);
        assert_eq!(grid[0].rotation, expected);
    }
}

/// The pan keys step the start position, in large steps under the
/// modifier, and never below zero.
#[test]
fn keybinds_pans_start_position() {
    let mut grid: Vec<ObjectStruct> = vec![];
    let mut start_pos: u16 = 0;
    let forward = EditorKeys { pan_forward: true, ..keys_none() };
    keybinds_manager(&mut grid, &forward, &mut start_pos);
    assert_eq!(start_pos, 5);
    let big_forward = EditorKeys { pan_forward: true, ctrl_held: true, ..keys_none() };
    keybinds_manager(&mut grid, &big_forward, &mut start_pos);
    assert_eq!(start_pos, 30);
    let back = EditorKeys { pan_back: true, ..keys_none() };
    keybinds_manager(&mut grid, &back, &mut start_pos);
    assert_eq!(start_pos, 25);
    start_pos = 0;
    keybinds_manager(&mut grid, &back, &mut start_pos);
    assert_eq!(start_pos, 0);
}
