use wmctrl::command::{command_line, list_windows_args};

#[test]
fn it_works() {
    assert_eq!(2 + 2, 4);
}

#[test]
fn the_listing_command_is_a_plain_invocation() {
    assert_eq!(command_line(list_windows_args()), "wmctrl -l");
}
