use u701::catalog::MediaControl;
use u701::machine::{Action, State};
use u701::{A2, A3, A4, B2, B3, B4, M1, M2};

#[test]
fn test_new() {
    let state = State::default();
    assert_eq!(state, State::Key(0));
}

#[test]
fn test_regular() {
    let mut state = State::default();
    assert_eq!(state.transition(A2), Some(Action::Media(MediaControl::VolumeDown)));
    assert_eq!(state.transition(A3), Some(Action::Media(MediaControl::PrevTrack)));
    assert_eq!(state.transition(A4), Some(Action::Media(MediaControl::PlayPause)));
    assert_eq!(state.transition(B2), Some(Action::Media(MediaControl::VolumeUp)));
    assert_eq!(state.transition(B3), Some(Action::Media(MediaControl::NextTrack)));
    assert_eq!(state.transition(B4), Some(Action::Media(MediaControl::Eject)));
}

#[test]
fn meta_1_with_regular() {
    let mut state = State::default();
    assert_eq!(state.transition(M1), None::<Action>);
    assert_eq!(state.transition(A2), Some(Action::Short(0)));
    assert_eq!(state.transition(M1), None::<Action>);
    assert_eq!(state.transition(A3), Some(Action::Short(1)));
    assert_eq!(state.transition(M1), None::<Action>);
    assert_eq!(state.transition(A4), Some(Action::Short(2)));
    assert_eq!(state.transition(M1), None::<Action>);
    assert_eq!(state.transition(B2), Some(Action::Short(3)));
    assert_eq!(state.transition(M1), None::<Action>);
    assert_eq!(state.transition(B3), Some(Action::Short(4)));
    assert_eq!(state.transition(M1), None::<Action>);
    assert_eq!(state.transition(B4), Some(Action::Short(5)));
}

#[test]
fn meta_2_with_regular() {
    let mut state = State::default();
    assert_eq!(state.transition(M2), None::<Action>);
    assert_eq!(state.transition(A2), Some(Action::Short(6)));
    assert_eq!(state.transition(M2), None::<Action>);
    assert_eq!(state.transition(A3), Some(Action::Short(7)));
    assert_eq!(state.transition(M2), None::<Action>);
    assert_eq!(state.transition(A4), Some(Action::Short(8)));
    assert_eq!(state.transition(M2), None::<Action>);
    assert_eq!(state.transition(B2), Some(Action::Short(9)));
    assert_eq!(state.transition(M2), None::<Action>);
    assert_eq!(state.transition(B3), Some(Action::Short(10)));
    assert_eq!(state.transition(M2), None::<Action>);
    assert_eq!(state.transition(B4), Some(Action::Short(11)));
}

#[test]
fn meta_1_with_meta_2() {
    let mut state = State::default();
    assert_eq!(state.transition(M1), None::<Action>);
    assert_eq!(state.transition(M2), None::<Action>);
    assert_eq!(state.transition(A2), Some(Action::Short(0)));
    assert_eq!(state.transition(M1), None::<Action>);
    assert_eq!(state.transition(M2), None::<Action>);
    assert_eq!(state.transition(A3), Some(Action::Short(1)));
    assert_eq!(state.transition(M1), None::<Action>);
    assert_eq!(state.transition(M2), None::<Action>);
    assert_eq!(state.transition(A4), Some(Action::Short(2)));
    assert_eq!(state.transition(M1), None::<Action>);
    assert_eq!(state.transition(M2), None::<Action>);
    assert_eq!(state.transition(B2), Some(Action::Short(3)));
    assert_eq!(state.transition(M1), None::<Action>);
    assert_eq!(state.transition(M2), None::<Action>);
    assert_eq!(state.transition(B3), Some(Action::Short(4)));
    assert_eq!(state.transition(M1), None::<Action>);
    assert_eq!(state.transition(M2), None::<Action>);
    assert_eq!(state.transition(B4), Some(Action::Short(5)));
}

#[test]
fn meta_2_with_meta_1() {
    let mut state = State::default();
    assert_eq!(state.transition(M2), None::<Action>);
    assert_eq!(state.transition(M1), None::<Action>);
    assert_eq!(state.transition(A2), Some(Action::Short(6)));
    assert_eq!(state.transition(M2), None::<Action>);
    assert_eq!(state.transition(M1), None::<Action>);
    assert_eq!(state.transition(A3), Some(Action::Short(7)));
    assert_eq!(state.transition(M2), None::<Action>);
    assert_eq!(state.transition(M1), None::<Action>);
    assert_eq!(state.transition(A4), Some(Action::Short(8)));
    assert_eq!(state.transition(M2), None::<Action>);
    assert_eq!(state.transition(M1), None::<Action>);
    assert_eq!(state.transition(B2), Some(Action::Short(9)));
    assert_eq!(state.transition(M2), None::<Action>);
    assert_eq!(state.transition(M1), None::<Action>);
    assert_eq!(state.transition(B3), Some(Action::Short(10)));
    assert_eq!(state.transition(M2), None::<Action>);
    assert_eq!(state.transition(M1), None::<Action>);
    assert_eq!(state.transition(B4), Some(Action::Short(11)));
}

#[test]
fn meta_1_with_meta_1() {
    let mut state = State::default();
    assert_eq!(state.transition(M1), None::<Action>);
    assert_eq!(state.transition(M1), None::<Action>);
    assert_eq!(state.transition(A2), Some(Action::Short(0)));
    assert_eq!(state.transition(M1), None::<Action>);
    assert_eq!(state.transition(M1), None::<Action>);
    assert_eq!(state.transition(A3), Some(Action::Short(1)));
    assert_eq!(state.transition(M1), None::<Action>);
    assert_eq!(state.transition(M1), None::<Action>);
    assert_eq!(state.transition(A4), Some(Action::Short(2)));
    assert_eq!(state.transition(M1), None::<Action>);
    assert_eq!(state.transition(M1), None::<Action>);
    assert_eq!(state.transition(B2), Some(Action::Short(3)));
    assert_eq!(state.transition(M1), None::<Action>);
    assert_eq!(state.transition(M1), None::<Action>);
    assert_eq!(state.transition(B3), Some(Action::Short(4)));
    assert_eq!(state.transition(M1), None::<Action>);
    assert_eq!(state.transition(M1), None::<Action>);
    assert_eq!(state.transition(B4), Some(Action::Short(5)));
}

#[test]
fn meta_2_with_meta_2() {
    let mut state = State::default();
    assert_eq!(state.transition(M2), None::<Action>);
    assert_eq!(state.transition(M2), None::<Action>);
    assert_eq!(state.transition(A2), Some(Action::Short(6)));
    assert_eq!(state.transition(M2), None::<Action>);
    assert_eq!(state.transition(M2), None::<Action>);
    assert_eq!(state.transition(A3), Some(Action::Short(7)));
    assert_eq!(state.transition(M2), None::<Action>);
    assert_eq!(state.transition(M2), None::<Action>);
    assert_eq!(state.transition(A4), Some(Action::Short(8)));
    assert_eq!(state.transition(M2), None::<Action>);
    assert_eq!(state.transition(M2), None::<Action>);
    assert_eq!(state.transition(B2), Some(Action::Short(9)));
    assert_eq!(state.transition(M2), None::<Action>);
    assert_eq!(state.transition(M2), None::<Action>);
    assert_eq!(state.transition(B3), Some(Action::Short(10)));
    assert_eq!(state.transition(M2), None::<Action>);
    assert_eq!(state.transition(M2), None::<Action>);
    assert_eq!(state.transition(B4), Some(Action::Short(11)));
}

#[test]
fn meta_1_with_meta_1_with_regular() {
    let mut state = State::default();

    assert_eq!(state.transition(M1), None);
    assert_eq!(state.transition(M1), None);
    assert_eq!(state.transition(A2), Some(Action::Short(0)));

    assert_eq!(state.transition(M1), None);
    assert_eq!(state.transition(M1), None);
    assert_eq!(state.transition(A3), Some(Action::Short(1)));

    assert_eq!(state.transition(M1), None);
    assert_eq!(state.transition(M1), None);
    assert_eq!(state.transition(A4), Some(Action::Short(2)));

    assert_eq!(state.transition(M1), None);
    assert_eq!(state.transition(B2), Some(Action::Short(3)));

    assert_eq!(state.transition(M1), None);
    assert_eq!(state.transition(B3), Some(Action::Short(4)));

    assert_eq!(state.transition(M1), None);
    assert_eq!(state.transition(B4), Some(Action::Short(5)));
}

#[test]
fn meta_2_with_meta_2_with_regular() {
    let mut state = State::default();

    assert_eq!(state.transition(M2), None);
    assert_eq!(state.transition(M2), None);
    assert_eq!(state.transition(A2), Some(Action::Short(6)));

    assert_eq!(state.transition(M2), None);
    assert_eq!(state.transition(M2), None);
    assert_eq!(state.transition(A3), Some(Action::Short(7)));

    assert_eq!(state.transition(M2), None);
    assert_eq!(state.transition(M2), None);
    assert_eq!(state.transition(A4), Some(Action::Short(8)));

    assert_eq!(state.transition(M2), None);
    assert_eq!(state.transition(A2), Some(Action::Short(6)));
    assert_eq!(state.transition(A3), Some(Action::Media(MediaControl::PrevTrack)));
    assert_eq!(state.transition(A4), Some(Action::Media(MediaControl::PlayPause)));

    assert_eq!(state.transition(M2), None);
    assert_eq!(state.transition(B2), Some(Action::Short(9)));

    assert_eq!(state.transition(M2), None);
    assert_eq!(state.transition(B3), Some(Action::Short(10)));

    assert_eq!(state.transition(M2), None);
    assert_eq!(state.transition(B4), Some(Action::Short(11)));
}

#[test]
fn meta_1_with_regular_with_meta_1() {
    let mut state = State::default();

    assert_eq!(state.transition(M1), None);
    assert_eq!(state.transition(A2), Some(Action::Short(0)));
    assert_eq!(state.transition(M1), None);
    assert_eq!(state.transition(A3), Some(Action::Short(1)));
    assert_eq!(state.transition(M1), None);
    assert_eq!(state.transition(A4), Some(Action::Short(2)));

    assert_eq!(state.transition(M1), None);
    assert_eq!(state.transition(M1), None);
    assert_eq!(state.transition(A2), Some(Action::Short(0)));

    assert_eq!(state.transition(M1), None);
    assert_eq!(state.transition(M1), None);
    assert_eq!(state.transition(A3), Some(Action::Short(1)));

    assert_eq!(state.transition(M1), None);
    assert_eq!(state.transition(M1), None);
    assert_eq!(state.transition(A4), Some(Action::Short(2)));

    assert_eq!(state.transition(M1), None);
    assert_eq!(state.transition(B2), Some(Action::Short(3)));

    assert_eq!(state.transition(M1), None);
    assert_eq!(state.transition(B3), Some(Action::Short(4)));

    assert_eq!(state.transition(M1), None);
    assert_eq!(state.transition(B4), Some(Action::Short(5)));
}
