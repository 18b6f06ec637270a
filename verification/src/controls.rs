use vstd::prelude::*;
use crate::direction::{Direction, dx, dy};

verus! {

/// The four arrow keys.
#[derive(Clone, Copy, PartialEq, Eq, Structural, Debug)]
pub enum Arrow {
    Left,
    Right,
    Up,
    Down,
}

/// What the player did, as far as the game cares.
#[derive(Clone, Copy, PartialEq, Eq, Structural, Debug)]
pub enum InputEvent {
    /// The window was closed or Escape was pressed.
    Quit,
    KeyDown(Arrow),
    KeyUp(Arrow),
    /// Anything else; it changes nothing.
    Other,
}

/// Which arrow keys are held down.
#[derive(Clone, Copy, PartialEq, Eq, Structural, Debug)]
pub struct Controls {
    pub left_pressed: bool,
    pub up_pressed: bool,
    pub right_pressed: bool,
    pub down_pressed: bool,
}

/// The heading that pressing `arrow` gives, with the keys held in `c`: the
/// pressed arrow sets its own axis; on the other axis a held key adds its
/// diagonal, up before down and left before right.
pub open spec fn press_direction(c: Controls, arrow: Arrow) -> Direction {
    match arrow {
        Arrow::Left => if c.up_pressed {
            Direction::UPLEFT
        } else if c.down_pressed {
            Direction::DOWNLEFT
        } else {
            Direction::LEFT
        },
        Arrow::Right => if c.up_pressed {
            Direction::UPRIGHT
        } else if c.down_pressed {
            Direction::DOWNRIGHT
        } else {
            Direction::RIGHT
        },
        Arrow::Up => if c.left_pressed {
            Direction::UPLEFT
        } else if c.right_pressed {
            Direction::UPRIGHT
        } else {
            Direction::UP
        },
        Arrow::Down => if c.left_pressed {
            Direction::DOWNLEFT
        } else if c.right_pressed {
            Direction::DOWNRIGHT
        } else {
            Direction::DOWN
        },
    }
}

/// The held keys with `arrow` marked held (`down`) or released.
pub open spec fn with_key(c: Controls, arrow: Arrow, down: bool) -> Controls {
    match arrow {
        Arrow::Left => Controls { left_pressed: down, ..c },
        Arrow::Right => Controls { right_pressed: down, ..c },
        Arrow::Up => Controls { up_pressed: down, ..c },
        Arrow::Down => Controls { down_pressed: down, ..c },
    }
}

/// Horizontal step an arrow asks for.
pub open spec fn arrow_dx(arrow: Arrow) -> int {
    match arrow {
        Arrow::Left => -1,
        Arrow::Right => 1,
        _ => 0,
    }
}

/// Vertical step an arrow asks for (screen coordinates: up is -1).
pub open spec fn arrow_dy(arrow: Arrow) -> int {
    match arrow {
        Arrow::Up => -1,
        Arrow::Down => 1,
        _ => 0,
    }
}

impl Controls {
    /// No key held.
    pub fn new() -> (c: Controls)
        ensures
            !c.left_pressed && !c.up_pressed && !c.right_pressed && !c.down_pressed,
    {
        Controls { left_pressed: false, up_pressed: false, right_pressed: false, down_pressed: false }
    }

    /// Applies one input event to the held keys and the player's heading, and
    /// returns whether the game goes on. Quitting changes nothing and stops the
    /// game; pressing an arrow marks it held and turns the player; releasing an
    /// arrow only marks it released; other events change nothing.
    pub fn handle_event(&mut self, event: InputEvent, direction: &mut Direction) -> (running: bool)
        ensures
            running == !(event is Quit),
            match event {
                InputEvent::KeyDown(a) => {
                    &&& *final(self) == with_key(*old(self), a, true)
                    &&& *final(direction) == press_direction(*old(self), a)
                },
                InputEvent::KeyUp(a) => {
                    &&& *final(self) == with_key(*old(self), a, false)
                    &&& *final(direction) == *old(direction)
                },
                _ => {
                    &&& *final(self) == *old(self)
                    &&& *final(direction) == *old(direction)
                },
            },
    {
        match event {
            InputEvent::Quit => false,
            InputEvent::KeyDown(Arrow::Left) => {
                self.left_pressed = true;
                if self.up_pressed {
                    *direction = Direction::UPLEFT;
                } else if self.down_pressed {
                    *direction = Direction::DOWNLEFT;
                } else {
                    *direction = Direction::LEFT;
                }
                true
            },
            InputEvent::KeyDown(Arrow::Right) => {
                self.right_pressed = true;
                if self.up_pressed {
                    *direction = Direction::UPRIGHT;
                } else if self.down_pressed {
                    *direction = Direction::DOWNRIGHT;
                } else {
                    *direction = Direction::RIGHT;
                }
                true
            },
            InputEvent::KeyDown(Arrow::Up) => {
                self.up_pressed = true;
                if self.left_pressed {
                    *direction = Direction::UPLEFT;
                } else if self.right_pressed {
                    *direction = Direction::UPRIGHT;
                } else {
                    *direction = Direction::UP;
                }
                true
            },
            InputEvent::KeyDown(Arrow::Down) => {
                self.down_pressed = true;
                if self.left_pressed {
                    *direction = Direction::DOWNLEFT;
                } else if self.right_pressed {
                    *direction = Direction::DOWNRIGHT;
                } else {
                    *direction = Direction::DOWN;
                }
                true
            },
            InputEvent::KeyUp(Arrow::Left) => {
                self.left_pressed = false;
                true
            },
            InputEvent::KeyUp(Arrow::Right) => {
                self.right_pressed = false;
                true
            },
            InputEvent::KeyUp(Arrow::Up) => {
                self.up_pressed = false;
                true
            },
            InputEvent::KeyUp(Arrow::Down) => {
                self.down_pressed = false;
                true
            },
            InputEvent::Other => true,
        }
    }
}

/// Pressing an arrow turns the player along it, and on the other axis the
/// heading follows the held keys of that axis: up before down, left before
/// right, straight when none is held.
pub proof fn lemma_press_steps(c: Controls, arrow: Arrow)
    ensures
        arrow_dx(arrow) != 0 ==> {
            &&& dx(press_direction(c, arrow)) == arrow_dx(arrow)
            &&& dy(press_direction(c, arrow)) == (if c.up_pressed {
                -1int
            } else if c.down_pressed {
                1int
            } else {
                0int
            })
        },
        arrow_dy(arrow) != 0 ==> {
            &&& dy(press_direction(c, arrow)) == arrow_dy(arrow)
            &&& dx(press_direction(c, arrow)) == (if c.left_pressed {
                -1int
            } else if c.right_pressed {
                1int
            } else {
                0int
            })
        },
{
}

/// Pressing an arrow while exactly one key of the other axis is held heads
/// diagonally: the arrow's own step on its axis, and the held key's step on
/// the other (Up with only Right held heads up-right).
pub proof fn lemma_press_with_one_cross_key_is_diagonal(c: Controls, arrow: Arrow, held: Arrow)
    requires
        arrow_dx(arrow) != 0 ==> arrow_dy(held) != 0,
        arrow_dy(arrow) != 0 ==> arrow_dx(held) != 0,
        with_key(c, held, true) == c,
        held != Arrow::Left ==> !c.left_pressed || arrow_dx(arrow) != 0,
        held != Arrow::Right ==> !c.right_pressed || arrow_dx(arrow) != 0,
        held != Arrow::Up ==> !c.up_pressed || arrow_dy(arrow) != 0,
        held != Arrow::Down ==> !c.down_pressed || arrow_dy(arrow) != 0,
    ensures
        dx(press_direction(c, arrow)) == arrow_dx(arrow) + arrow_dx(held),
        dy(press_direction(c, arrow)) == arrow_dy(arrow) + arrow_dy(held),
{
}

/// Pressing an arrow always heads the player that way: the new heading's step
/// on the arrow's axis is the arrow's own step, whatever else is held.
pub proof fn lemma_press_heads_that_way(c: Controls, arrow: Arrow)
    ensures
        arrow_dx(arrow) != 0 ==> dx(press_direction(c, arrow)) == arrow_dx(arrow),
        arrow_dy(arrow) != 0 ==> dy(press_direction(c, arrow)) == arrow_dy(arrow),
{
}

/// Pressing an arrow while no key of the other axis is held heads straight
/// along the arrow.
pub proof fn lemma_press_alone_is_straight(c: Controls, arrow: Arrow)
    requires
        arrow_dx(arrow) != 0 ==> !c.up_pressed && !c.down_pressed,
        arrow_dy(arrow) != 0 ==> !c.left_pressed && !c.right_pressed,
    ensures
        dx(press_direction(c, arrow)) == arrow_dx(arrow),
        dy(press_direction(c, arrow)) == arrow_dy(arrow),
{
}

/// A held key that is pressed again (the keyboard repeats a held key) turns
/// the player the same way as the first press did, and leaves the held keys
/// as they were.
pub proof fn lemma_repeated_press_is_stable(c: Controls, arrow: Arrow)
    ensures
        with_key(with_key(c, arrow, true), arrow, true) == with_key(c, arrow, true),
        press_direction(with_key(c, arrow, true), arrow) == press_direction(c, arrow),
{
}

} // verus!
