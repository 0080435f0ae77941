//! Keyboard and mouse state that the simulation step reads.

use vstd::prelude::*;
use crate::window::Key;

verus! {

/// Mouse movement since the last sample and the current movement axes.
///
/// `forward` and `right` are each -1, 0 or 1.
pub struct InputHandler {
    pub mouse_prev_x: i32,
    pub mouse_prev_y: i32,
    pub mouse_diff_x: i32,
    pub mouse_diff_y: i32,
    pub forward: i8,
    pub right: i8,
}

/// The value of an axis after `key` went down.
pub open spec fn axis_after_press(axis: i8, positive: bool, negative: bool) -> i8 {
    if positive {
        1i8
    } else if negative {
        -1i8
    } else {
        axis
    }
}

/// The value of an axis after a key went up: the axis is released only if it
/// still points the way of the key that went up.
pub open spec fn axis_after_release(axis: i8, positive: bool, negative: bool) -> i8 {
    if positive && axis == 1 {
        0i8
    } else if negative && axis == -1 {
        0i8
    } else {
        axis
    }
}

impl InputHandler {
    /// The last sampled cursor position.
    pub open spec fn mouse_prev(&self) -> (i32, i32) {
        (self.mouse_prev_x, self.mouse_prev_y)
    }

    /// Both axes hold -1, 0 or 1.
    pub open spec fn wf(&self) -> bool {
        &&& -1 <= self.forward <= 1
        &&& -1 <= self.right <= 1
    }

    /// A handler at rest, with the cursor last seen at the given position.
    pub fn new(mouse_prev_x: i32, mouse_prev_y: i32) -> (handler: Self)
        ensures
            handler.mouse_prev() == (mouse_prev_x, mouse_prev_y),
            handler.mouse_diff_x == 0,
            handler.mouse_diff_y == 0,
            handler.forward == 0,
            handler.right == 0,
            handler.wf(),
    {
        Self { mouse_prev_x, mouse_prev_y, mouse_diff_x: 0, mouse_diff_y: 0, forward: 0, right: 0 }
    }

    /// Whether the movement from the last sample to `(x, y)` fits the
    /// difference fields.
    pub open spec fn spec_can_handle_mouse(&self, x: i32, y: i32) -> bool {
        &&& i32::MIN <= x - self.mouse_prev().0 <= i32::MAX
        &&& i32::MIN <= y - self.mouse_prev().1 <= i32::MAX
    }

    /// Tests the precondition of [`InputHandler::handle_mouse`].
    pub fn can_handle_mouse(&self, x: i32, y: i32) -> (ok: bool)
        ensures
            ok == self.spec_can_handle_mouse(x, y),
    {
        x.checked_sub(self.mouse_prev_x).is_some() && y.checked_sub(self.mouse_prev_y).is_some()
    }

    /// Records a cursor sample: the differences are taken against the last
    /// sample, which the new one then replaces.
    pub fn handle_mouse(&mut self, x: i32, y: i32)
        requires
            old(self).spec_can_handle_mouse(x, y),
        ensures
            final(self).mouse_diff_x == x - old(self).mouse_prev().0,
            final(self).mouse_diff_y == y - old(self).mouse_prev().1,
            final(self).mouse_prev() == (x, y),
            final(self).forward == old(self).forward,
            final(self).right == old(self).right,
    {
        self.mouse_diff_x = x - self.mouse_prev_x;
        self.mouse_diff_y = y - self.mouse_prev_y;
        self.mouse_prev_x = x;
        self.mouse_prev_y = y;
    }

    /// Records that `key` went down: `W` and `S` set the forward axis to 1 and
    /// -1, `D` and `A` the right axis; any other key changes nothing.
    pub fn handle_key_press(&mut self, key: Key)
        ensures
            final(self).forward == axis_after_press(old(self).forward, key == Key::W, key == Key::S),
            final(self).right == axis_after_press(old(self).right, key == Key::D, key == Key::A),
            final(self).mouse_prev() == old(self).mouse_prev(),
            final(self).mouse_diff_x == old(self).mouse_diff_x,
            final(self).mouse_diff_y == old(self).mouse_diff_y,
            old(self).wf() ==> final(self).wf(),
    {
        match key {
            Key::W => self.forward = 1,
            Key::S => self.forward = -1,
            Key::D => self.right = 1,
            Key::A => self.right = -1,
            _ => (),
        }
    }

    /// Records that `key` went up: an axis is released only if it still
    /// points the way of the key.
    pub fn handle_key_release(&mut self, key: Key)
        ensures
            final(self).forward == axis_after_release(
                old(self).forward,
                key == Key::W,
                key == Key::S,
            ),
            final(self).right == axis_after_release(old(self).right, key == Key::D, key == Key::A),
            final(self).mouse_prev() == old(self).mouse_prev(),
            final(self).mouse_diff_x == old(self).mouse_diff_x,
            final(self).mouse_diff_y == old(self).mouse_diff_y,
            old(self).wf() ==> final(self).wf(),
    {
        match key {
            Key::W => {
                if self.forward == 1 {
                    self.forward = 0;
                }
            },
            Key::S => {
                if self.forward == -1 {
                    self.forward = 0;
                }
            },
            Key::D => {
                if self.right == 1 {
                    self.right = 0;
                }
            },
            Key::A => {
                if self.right == -1 {
                    self.right = 0;
                }
            },
            _ => (),
        }
    }
}

} // verus!
