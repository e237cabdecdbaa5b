use u701::states::{process_event, CurrentState, Up};
use u701::{ClickEvent, PushState, BUTTON_2, BUTTON_3, META_1};

// [Pressed] Up -> Down
#[test]
fn tests_test_up_to_down() {
    let state = PushState::Up(0);
    let event: ClickEvent = [0, 0, BUTTON_2, 0];
    let (next_state, next_event) = state.transition(&event);

    assert!(matches!(next_state, PushState::Down(BUTTON_2)));
    assert!(matches!(next_event, Some(_)));
}

// [Released] Down -> Up
#[test]
fn test_down_to_up() {
    let state = PushState::Down(BUTTON_2);
    let event: ClickEvent = [0, 0, 0, 0];
    let (next_state, next_event) = state.transition(&event);

    assert!(matches!(next_state, PushState::Up(BUTTON_2)));
    assert!(matches!(next_event, None));
}

// [Invalid] Down -> Down
#[test]
fn test_down_to_down() {
    let state = PushState::Down(BUTTON_2);
    let event: ClickEvent = [0, 0, BUTTON_3, 0];
    let (next_state, next_event) = state.transition(&event);

    assert!(matches!(next_state, PushState::Down(BUTTON_2)));
    assert!(matches!(next_event, None));
}

// [Invalid] Up -> Up
#[test]
fn test_up_to_up() {
    let state = PushState::Up(BUTTON_2);
    let event: ClickEvent = [0, 0, 0, 0];
    let (next_state, next_event) = state.transition(&event);

    assert!(matches!(next_state, PushState::Up(BUTTON_2)));
    assert!(matches!(next_event, None));
}

// [Pressed] Up(Meta) -> Down
#[test]
fn test_meta_up_to_regular_down() {
    let prev_state = PushState::Up(META_1);
    let curr_event: ClickEvent = [0, 0, BUTTON_2, 0];
    let (next_state, next_event) = prev_state.transition(&curr_event);

    assert!(matches!(next_state, PushState::Down(BUTTON_2)));
    assert!(matches!(next_event, Some(_)));
}

// [Invalid] Up(Meta) -> Up
#[test]
fn test_meta_up_to_regular_up() {
    let prev_state = PushState::Up(META_1);
    let curr_event: ClickEvent = [0, 0, 0, 0];
    let (next_state, next_event) = prev_state.transition(&curr_event);

    assert!(matches!(next_state, PushState::Up(META_1)));
    assert!(matches!(next_event, None));
}

#[test]
fn states_test_up_to_down() {
    let state = Up(0);
    let event: ClickEvent = [0, 0, BUTTON_2, 0];
    let next_state = process_event(&state, &event);
    assert!(matches!(next_state.to_event(), None));
}
