//! Windows managed by the window manager.

use vstd::prelude::*;
use crate::command::{action, action_args, change, change_args, selector};
use crate::state::State;
use crate::transformation::Transformation;

verus! {

/// What a window record holds.
pub struct WindowView {
    pub id: Seq<char>,
    pub desktop: Seq<char>,
    pub client_machine: Seq<char>,
    pub title: Seq<char>,
    pub transformation: Transformation,
    pub class: Seq<char>,
}

/// A window managed by the window manager, as `wmctrl` listed it.
///
/// Each operation returns the arguments with which `wmctrl` has to be run to
/// carry it out, and updates the record as if the tool had succeeded.
///
/// **Note**: `wmctrl` fails silently, so the record may differ from the real
/// window after an operation that the window manager did not carry out.
#[derive(Debug)]
pub struct Window {
    id: String,
    desktop: String,
    client_machine: String,
    title: String,
    transformation: Transformation,
    class: String,
}

impl View for Window {
    type V = WindowView;

    closed spec fn view(&self) -> WindowView {
        WindowView {
            id: self.id@,
            desktop: self.desktop@,
            client_machine: self.client_machine@,
            title: self.title@,
            transformation: self.transformation,
            class: self.class@,
        }
    }
}

impl Window {
    /// The record of a window with the given identifier, desktop, client
    /// machine, title, geometry and class.
    pub fn new(
        id: String,
        desktop: String,
        client_machine: String,
        title: String,
        transformation: Transformation,
        class: String,
    ) -> (window: Window)
        ensures
            window@ == (WindowView {
                id: id@,
                desktop: desktop@,
                client_machine: client_machine@,
                title: title@,
                transformation,
                class: class@,
            }),
    {
        Window { id, desktop, client_machine, title, transformation, class }
    }

    /// How the window is named on the command line.
    fn get(&self) -> (target: String)
        ensures
            target@ == selector(self@.id),
    {
        let mut target = self.id.clone();
        target.append(" -i");
        target
    }

    /// Set the title of the window
    ///
    /// The result is the argument text of `wmctrl -r <WIN> -N <STR>`.
    pub fn set_title(&mut self, title: &str) -> (args: String)
        ensures
            final(self)@ == (WindowView { title: title@, ..old(self)@ }),
            args@ == change_args(selector(old(self)@.id), "-N"@, title@),
    {
        self.title = String::from_str(title);
        change(self.get().as_str(), "-N", title)
    }

    /// Set the icon title (short title) of the window
    ///
    /// The result is the argument text of `wmctrl -r <WIN> -I <STR>`.
    pub fn set_icon_title(&self, title: &str) -> (args: String)
        ensures
            args@ == change_args(selector(self@.id), "-I"@, title@),
    {
        change(self.get().as_str(), "-I", title)
    }

    /// Set both the title and icon title of the window
    ///
    /// The result is the argument text of `wmctrl -r <WIN> -T <STR>`.
    pub fn set_both_title(&mut self, title: &str) -> (args: String)
        ensures
            final(self)@ == (WindowView { title: title@, ..old(self)@ }),
            args@ == change_args(selector(old(self)@.id), "-T"@, title@),
    {
        self.title = String::from_str(title);
        change(self.get().as_str(), "-T", title)
    }

    /// Change the state of the window
    ///
    /// Using this method it's possible for example to make the window
    /// maximized, minimized, or fullscreen. The result is the argument text
    /// of `wmctrl -r <WIN> -b <STARG>`.
    pub fn change_state(&self, state: State) -> (args: String)
        ensures
            args@ == change_args(selector(self@.id), "-b"@, state.arg()),
    {
        let value = state.to_arg();
        change(self.get().as_str(), "-b", value.as_str())
    }

    /// Resize and move the window around the desktop
    ///
    /// The result is the argument text of `wmctrl -r <WIN> -e <MVARG>`.
    pub fn transform(&mut self, transformation: Transformation) -> (args: String)
        ensures
            final(self)@ == (WindowView { transformation, ..old(self)@ }),
            args@ == change_args(selector(old(self)@.id), "-e"@, transformation.arg()),
    {
        self.transformation = transformation;
        let value = transformation.to_arg();
        change(self.get().as_str(), "-e", value.as_str())
    }

    /// Move the window to the specified desktop
    ///
    /// The result is the argument text of `wmctrl -r <WIN> -t <DESK>`.
    pub fn set_desktop(&mut self, desktop: &str) -> (args: String)
        ensures
            final(self)@ == (WindowView { desktop: desktop@, ..old(self)@ }),
            args@ == change_args(selector(old(self)@.id), "-t"@, desktop@),
    {
        self.desktop = String::from_str(desktop);
        change(self.get().as_str(), "-t", desktop)
    }

    /// Move the window to the current desktop and raise it
    ///
    /// `current_desktop` is the desktop that is shown now. The result is the
    /// argument text of `wmctrl -R <WIN>`.
    pub fn activate(&mut self, current_desktop: &str) -> (args: String)
        ensures
            final(self)@ == (WindowView { desktop: current_desktop@, ..old(self)@ }),
            args@ == action_args("-R"@, selector(old(self)@.id)),
    {
        self.desktop = String::from_str(current_desktop);
        action("-R", self.get().as_str())
    }

    /// Activate the window by switching to its desktop and raising it
    ///
    /// The result is the argument text of `wmctrl -a <WIN>`.
    pub fn raise(&self) -> (args: String)
        ensures
            args@ == action_args("-a"@, selector(self@.id)),
    {
        action("-a", self.get().as_str())
    }

    /// Close the window gracefully
    ///
    /// The record is given up with the window. The result is the argument
    /// text of `wmctrl -c <WIN>`.
    pub fn close(self) -> (args: String)
        ensures
            args@ == action_args("-c"@, selector(self@.id)),
    {
        action("-c", self.get().as_str())
    }

    /// Get the title immutably
    pub fn title(&self) -> (title: &String)
        ensures
            title@ == self@.title,
    {
        &self.title
    }

    /// Get the class immutably
    pub fn class(&self) -> (class: &String)
        ensures
            class@ == self@.class,
    {
        &self.class
    }

    /// Get the desktop immutably
    pub fn desktop(&self) -> (desktop: &String)
        ensures
            desktop@ == self@.desktop,
    {
        &self.desktop
    }

    /// Get the client machine immutably
    pub fn client_machine(&self) -> (client_machine: &String)
        ensures
            client_machine@ == self@.client_machine,
    {
        &self.client_machine
    }

    /// Get the position and size
    pub fn transformation(&self) -> (transformation: Transformation)
        ensures
            transformation == self@.transformation,
    {
        self.transformation
    }

    /// Get the identifier immutably
    pub fn id(&self) -> (id: &String)
        ensures
            id@ == self@.id,
    {
        &self.id
    }
}

} // verus!
