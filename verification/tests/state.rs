use wmctrl::{Action, Property, State};

#[test]
fn actions_have_their_words() {
    assert_eq!(Action::Remove.as_str(), "remove");
    assert_eq!(Action::Add.as_str(), "add");
    assert_eq!(Action::Toggle.as_str(), "toggle");
}

#[test]
fn properties_have_their_words() {
    assert_eq!(Property::Modal.as_str(), "modal");
    assert_eq!(Property::Sticky.as_str(), "sticky");
    assert_eq!(Property::MaximizedVert.as_str(), "maximized_vert");
    assert_eq!(Property::MaximizedHorz.as_str(), "maximized_horz");
    assert_eq!(Property::Shaded.as_str(), "shaded");
    assert_eq!(Property::SkipTaskbar.as_str(), "skip_taskbar");
    assert_eq!(Property::SkipPager.as_str(), "skip_pager");
    assert_eq!(Property::Hidden.as_str(), "hidden");
    assert_eq!(Property::Fullscreen.as_str(), "fullscreen");
    assert_eq!(Property::Above.as_str(), "above");
    assert_eq!(Property::Below.as_str(), "below");
}

#[test]
fn a_state_keeps_what_it_was_made_of() {
    let state = State::new(Action::Toggle, Property::Above);
    assert_eq!(state.action, Action::Toggle);
    assert_eq!(state.property, Property::Above);
}

#[test]
fn state_argument_is_action_comma_property() {
    assert_eq!(State::new(Action::Add, Property::Fullscreen).to_arg(), "add,fullscreen");
    assert_eq!(
        State::new(Action::Remove, Property::MaximizedVert).to_arg(),
        "remove,maximized_vert"
    );
    assert_eq!(State::new(Action::Toggle, Property::SkipPager).to_arg(), "toggle,skip_pager");
}
