//! The text of `wmctrl` invocations.

use vstd::prelude::*;

verus! {

/// How a window is named on the command line: its identifier, followed by
/// the flag that tells `wmctrl` to read it as a numeric identifier.
pub open spec fn selector(id: Seq<char>) -> Seq<char> {
    id + " -i"@
}

/// Arguments that apply the action `flag` to the window named by `target`.
pub open spec fn action_args(flag: Seq<char>, target: Seq<char>) -> Seq<char> {
    flag + " "@ + target
}

/// Arguments that pick the window named by `target` and give its attribute
/// `option` the new value `value`.
pub open spec fn change_args(target: Seq<char>, option: Seq<char>, value: Seq<char>) -> Seq<char> {
    action_args("-r"@, target) + " "@ + option + " "@ + value
}

/// The shell command that runs `wmctrl` with `args`.
pub open spec fn command_line_of(args: Seq<char>) -> Seq<char> {
    "wmctrl "@ + args
}

/// The message reported when `wmctrl` could not be started with `args`.
pub open spec fn failure_message_of(args: Seq<char>) -> Seq<char> {
    "failed to execute 'wmctrl "@ + args + "'"@
}

/// Builds the arguments that apply the action `flag` to the window named by
/// `target`.
pub fn action(flag: &str, target: &str) -> (args: String)
    ensures
        args@ == action_args(flag@, target@),
{
    let mut args = String::from_str(flag);
    args.append(" ");
    args.append(target);
    args
}

/// Builds the arguments that pick the window named by `target` and give its
/// attribute `option` the new value `value`.
pub fn change(target: &str, option: &str, value: &str) -> (args: String)
    ensures
        args@ == change_args(target@, option@, value@),
{
    let mut args = action("-r", target);
    args.append(" ");
    args.append(option);
    args.append(" ");
    args.append(value);
    args
}

/// The arguments that list the windows the window manager knows.
pub fn list_windows_args() -> (args: &'static str)
    ensures
        args@ == "-l"@,
{
    "-l"
}

/// The arguments that print the window table: one row for each window, with
/// its geometry and its class.
pub fn window_table_args() -> (args: &'static str)
    ensures
        args@ == "-l -G -x"@,
{
    "-l -G -x"
}

/// The arguments that print the desktop table: one row for each desktop.
pub fn desktop_table_args() -> (args: &'static str)
    ensures
        args@ == "-d"@,
{
    "-d"
}

/// The arguments that show information about the window manager.
pub fn show_information_about_wm_args() -> (args: &'static str)
    ensures
        args@ == "-m"@,
{
    "-m"
}

/// Builds the shell command that runs `wmctrl` with `args`.
pub fn command_line(args: &str) -> (line: String)
    ensures
        line@ == command_line_of(args@),
{
    let mut line = String::from_str("wmctrl ");
    line.append(args);
    line
}

/// Builds the message reported when `wmctrl` could not be started with
/// `args`.
pub fn failure_message(args: &str) -> (message: String)
    ensures
        message@ == failure_message_of(args@),
{
    let mut message = String::from_str("failed to execute 'wmctrl ");
    message.append(args);
    message.append("'");
    message
}

} // verus!
