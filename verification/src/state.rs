//! State change requests: the argument of `wmctrl -b`.

use vstd::prelude::*;

verus! {

/// What to do with a property of a window.
#[derive(Clone, Copy, Debug, PartialEq, Eq, Structural)]
pub enum Action {
    Remove,
    Add,
    Toggle,
}

/// A property of a window that the window manager can switch on and off.
#[derive(Clone, Copy, Debug, PartialEq, Eq, Structural)]
pub enum Property {
    Modal,
    Sticky,
    MaximizedVert,
    MaximizedHorz,
    Shaded,
    SkipTaskbar,
    SkipPager,
    Hidden,
    Fullscreen,
    Above,
    Below,
}

/// A request to change one property of a window.
#[derive(Clone, Copy, Debug, PartialEq, Eq, Structural)]
pub struct State {
    pub action: Action,
    pub property: Property,
}

impl Action {
    /// The word `wmctrl` uses for this action.
    pub open spec fn word(self) -> Seq<char> {
        match self {
            Action::Remove => "remove"@,
            Action::Add => "add"@,
            Action::Toggle => "toggle"@,
        }
    }

    /// The word `wmctrl` uses for this action.
    pub fn as_str(&self) -> (text: &'static str)
        ensures
            text@ == self.word(),
    {
        match self {
            Action::Remove => "remove",
            Action::Add => "add",
            Action::Toggle => "toggle",
        }
    }
}

impl Property {
    /// The word `wmctrl` uses for this property.
    pub open spec fn word(self) -> Seq<char> {
        match self {
            Property::Modal => "modal"@,
            Property::Sticky => "sticky"@,
            Property::MaximizedVert => "maximized_vert"@,
            Property::MaximizedHorz => "maximized_horz"@,
            Property::Shaded => "shaded"@,
            Property::SkipTaskbar => "skip_taskbar"@,
            Property::SkipPager => "skip_pager"@,
            Property::Hidden => "hidden"@,
            Property::Fullscreen => "fullscreen"@,
            Property::Above => "above"@,
            Property::Below => "below"@,
        }
    }

    /// The word `wmctrl` uses for this property.
    pub fn as_str(&self) -> (text: &'static str)
        ensures
            text@ == self.word(),
    {
        match self {
            Property::Modal => "modal",
            Property::Sticky => "sticky",
            Property::MaximizedVert => "maximized_vert",
            Property::MaximizedHorz => "maximized_horz",
            Property::Shaded => "shaded",
            Property::SkipTaskbar => "skip_taskbar",
            Property::SkipPager => "skip_pager",
            Property::Hidden => "hidden",
            Property::Fullscreen => "fullscreen",
            Property::Above => "above",
            Property::Below => "below",
        }
    }
}

impl State {
    /// A request to apply `action` to `property`.
    pub fn new(action: Action, property: Property) -> (state: State)
        ensures
            state.action == action,
            state.property == property,
    {
        State { action, property }
    }

    /// The argument text of the request: the action, a comma, the property.
    pub open spec fn arg(self) -> Seq<char> {
        self.action.word() + ","@ + self.property.word()
    }

    /// The argument text of the request, as `wmctrl -b` takes it.
    pub fn to_arg(&self) -> (text: String)
        ensures
            text@ == self.arg(),
    {
        let mut text = String::from_str(self.action.as_str());
        text.append(",");
        text.append(self.property.as_str());
        text
    }
}

} // verus!
