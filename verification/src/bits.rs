//! The set of abstract navigation commands asserted on one frame.
//!
//! Six commands exist: the four directions, Click, and the user-action class.
//! A frame's raw command set records which of them some pressed physical
//! input is currently bound to; the timing controller then decides which of
//! them take effect this frame.

use vstd::prelude::*;

verus! {

/// One flag per abstract navigation command.
#[derive(Clone, Copy, PartialEq, Eq, Structural, Debug)]
pub struct CommandBits {
    pub up: bool,
    pub down: bool,
    pub left: bool,
    pub right: bool,
    pub click: bool,
    pub user: bool,
}

impl CommandBits {
    /// The set with no command asserted.
    pub open spec fn empty() -> CommandBits {
        CommandBits { up: false, down: false, left: false, right: false, click: false, user: false }
    }

    /// Whether any command at all is asserted.
    pub open spec fn any(self) -> bool {
        self.up || self.down || self.left || self.right || self.click || self.user
    }

    /// The commands asserted in `self` but not in `other`.
    pub open spec fn minus(self, other: CommandBits) -> CommandBits {
        CommandBits {
            up: self.up && !other.up,
            down: self.down && !other.down,
            left: self.left && !other.left,
            right: self.right && !other.right,
            click: self.click && !other.click,
            user: self.user && !other.user,
        }
    }

    /// Whether Click or the user-action class is asserted.
    pub open spec fn any_activation(self) -> bool {
        self.click || self.user
    }

    /// Build the set with no command asserted.
    pub fn new() -> (r: CommandBits)
        ensures
            r == CommandBits::empty(),
    {
        CommandBits { up: false, down: false, left: false, right: false, click: false, user: false }
    }

    /// Whether any command at all is asserted.
    pub fn is_any(&self) -> (r: bool)
        ensures
            r == self.any(),
    {
        self.up || self.down || self.left || self.right || self.click || self.user
    }

    /// Compute the commands asserted in `self` but not in `other`.
    pub fn but_not(&self, other: &CommandBits) -> (r: CommandBits)
        ensures
            r == self.minus(*other),
    {
        CommandBits {
            up: self.up && !other.up,
            down: self.down && !other.down,
            left: self.left && !other.left,
            right: self.right && !other.right,
            click: self.click && !other.click,
            user: self.user && !other.user,
        }
    }
}

} // verus!
