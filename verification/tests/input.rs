use wakey_2d_engine::input::Input;

#[test]
fn new_input_holds_nothing() {
    let input: Input<u32> = Input::new();
    assert!(!input.is_pressed(1));
    assert!(!input.is_just_pressed(1));
    assert!(!input.is_just_released(1));
}

#[test]
fn press_marks_pressed_and_just_pressed() {
    let mut input: Input<u32> = Input::new();
    input.press(7);
    assert!(input.is_pressed(7));
    assert!(input.is_just_pressed(7));
    assert!(!input.is_just_released(7));
    assert!(!input.is_pressed(8));
}

#[test]
fn clear_forgets_changes_but_not_what_is_held() {
    let mut input: Input<u32> = Input::new();
    input.press(7);
    input.clear();
    assert!(input.is_pressed(7));
    assert!(!input.is_just_pressed(7));
    assert!(!input.is_just_released(7));
}

#[test]
fn repeated_press_of_a_held_key_is_not_a_new_press() {
    let mut input: Input<u32> = Input::new();
    input.press(7);
    input.clear();
    input.press(7);
    assert!(input.is_pressed(7));
    assert!(!input.is_just_pressed(7));
}

#[test]
fn release_marks_just_released() {
    let mut input: Input<u32> = Input::new();
    input.press(7);
    input.clear();
    input.release(7);
    assert!(!input.is_pressed(7));
    assert!(input.is_just_released(7));
    assert!(!input.is_just_pressed(7));
    input.clear();
    assert!(!input.is_just_released(7));
}

#[test]
fn release_of_a_key_that_is_not_held_changes_nothing() {
    let mut input: Input<u32> = Input::new();
    input.release(7);
    assert!(!input.is_pressed(7));
    assert!(!input.is_just_released(7));
}

#[test]
fn press_and_release_within_one_frame_show_both() {
    let mut input: Input<u32> = Input::new();
    input.press(3);
    input.release(3);
    assert!(!input.is_pressed(3));
    assert!(input.is_just_pressed(3));
    assert!(input.is_just_released(3));
}

#[test]
fn cloned_input_is_independent_of_its_source() {
    let mut input: Input<u32> = Input::new();
    input.press(1);
    let copy = input.clone();
    input.release(1);
    input.press(2);
    assert!(copy.is_pressed(1));
    assert!(copy.is_just_pressed(1));
    assert!(!copy.is_just_released(1));
    assert!(!copy.is_pressed(2));
    assert!(!input.is_pressed(1));
    assert!(input.is_pressed(2));
}

#[test]
fn input_works_for_other_symbol_types() {
    let mut input: Input<char> = Input::new();
    input.press('w');
    assert!(input.is_pressed('w'));
    assert!(!input.is_pressed('s'));
}
