// The preset browser: stepping, selecting and opening the list.
use oasis::presets::{browse, PresetAction};

#[test]
fn next_steps_and_loads() {
    let mut current = 5;
    let mut show = true;
    assert_eq!(browse(PresetAction::Next, &mut current, &mut show, 6), Some(0));
    assert_eq!(current, 0);
    assert!(!show);
}

#[test]
fn previous_steps_back_and_loads() {
    let mut current = 0;
    let mut show = true;
    assert_eq!(browse(PresetAction::Previous, &mut current, &mut show, 6), Some(5));
    assert_eq!(current, 5);
    assert!(!show);
}

#[test]
fn previous_from_outside_the_bank_moves_without_loading() {
    let mut current = 9;
    let mut show = true;
    assert_eq!(browse(PresetAction::Previous, &mut current, &mut show, 6), None);
    assert_eq!(current, 8);
    assert!(show);
}

#[test]
fn select_in_bank_loads_it() {
    let mut current = 1;
    let mut show = true;
    assert_eq!(browse(PresetAction::Select(3), &mut current, &mut show, 6), Some(3));
    assert_eq!(current, 3);
    assert!(!show);
}

#[test]
fn select_outside_bank_changes_nothing() {
    let mut current = 1;
    let mut show = true;
    assert_eq!(browse(PresetAction::Select(6), &mut current, &mut show, 6), None);
    assert_eq!(current, 1);
    assert!(show);
}

#[test]
fn toggle_list_flips_only_the_list() {
    let mut current = 2;
    let mut show = false;
    assert_eq!(browse(PresetAction::ToggleList, &mut current, &mut show, 6), None);
    assert!(show);
    assert_eq!(browse(PresetAction::ToggleList, &mut current, &mut show, 6), None);
    assert!(!show);
    assert_eq!(current, 2);
}
