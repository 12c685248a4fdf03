use rxserver::protocol::randr::{RandrState, Rotation};

#[test]
fn a_new_screen_gets_the_standard_modes() {
    let mut state = RandrState::new();
    assert_eq!((state.version_major, state.version_minor), (1, 6));
    state.init_screen(0, 1280, 720);
    let screen = state.get_screen(0).unwrap();
    assert_eq!((screen.width, screen.height), (1280, 720));
    assert_eq!(screen.modes.len(), 5);
    assert_eq!(screen.modes[3].name, "1280x720");
    assert_eq!(screen.outputs[0].name, "Virtual-1");
    assert_eq!(screen.crtcs[0].mode_id, Some(4));
    assert!(state.get_screen(1).is_none());
    state.get_screen_mut(0).unwrap().width = 800;
    assert_eq!(state.get_screen(0).unwrap().width, 800);
}

#[test]
fn rotations_round_trip() {
    for v in [1u16, 2, 4, 8, 16, 32] {
        assert_eq!(Rotation::from_u16(v).to_u16(), v);
    }
    assert_eq!(Rotation::from_u16(3), Rotation::Rotate0);
}
