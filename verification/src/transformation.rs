//! Position and size requests: the argument of `wmctrl -e`.

use vstd::prelude::*;
use crate::decimal::{append_decimal, append_decimal_nat, decimal, decimal_nat};

verus! {

/// Where a window should go and how large it should be.
///
/// A value of -1 for a coordinate or a dimension asks the window manager to
/// leave it as it is. The gravity is 0, the window's own default.
#[derive(Clone, Copy, Debug, PartialEq, Eq, Structural)]
pub struct Transformation {
    pub gravity: u16,
    pub x: i32,
    pub y: i32,
    pub width: i32,
    pub height: i32,
}

impl Transformation {
    /// A request for the position `(x, y)` and the size `width` by `height`,
    /// with the default gravity.
    pub fn new(x: i32, y: i32, width: i32, height: i32) -> (transformation: Transformation)
        ensures
            transformation == (Transformation { gravity: 0, x, y, width, height }),
    {
        Transformation { gravity: 0, x, y, width, height }
    }

    /// The argument text of the request: gravity, x, y, width and height in
    /// decimal, separated by commas.
    pub open spec fn arg(self) -> Seq<char> {
        decimal_nat(self.gravity as nat) + ","@ + decimal(self.x as int) + ","@ + decimal(
            self.y as int,
        ) + ","@ + decimal(self.width as int) + ","@ + decimal(self.height as int)
    }

    /// The argument text of the request, as `wmctrl -e` takes it.
    pub fn to_arg(&self) -> (text: String)
        ensures
            text@ == self.arg(),
    {
        let mut text = String::new();
        append_decimal_nat(&mut text, self.gravity as u64);
        text.append(",");
        append_decimal(&mut text, self.x as i64);
        text.append(",");
        append_decimal(&mut text, self.y as i64);
        text.append(",");
        append_decimal(&mut text, self.width as i64);
        text.append(",");
        append_decimal(&mut text, self.height as i64);
        assert(text@ =~= self.arg());
        text
    }
}

} // verus!
