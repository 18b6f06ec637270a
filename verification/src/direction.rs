use vstd::prelude::*;

verus! {

/// The eight headings a chomper can face.
#[allow(non_camel_case_types)]
#[derive(Clone, Copy, PartialEq, Eq, Structural, Debug)]
pub enum Direction {
    LEFT,
    RIGHT,
    UP,
    UPLEFT,
    UPRIGHT,
    DOWN,
    DOWNLEFT,
    DOWNRIGHT,
}

/// Horizontal step of a heading: -1 to the left, 1 to the right.
pub open spec fn dx(d: Direction) -> int {
    match d {
        Direction::LEFT | Direction::UPLEFT | Direction::DOWNLEFT => -1,
        Direction::RIGHT | Direction::UPRIGHT | Direction::DOWNRIGHT => 1,
        Direction::UP | Direction::DOWN => 0,
    }
}

/// Vertical step of a heading: screen coordinates, so -1 is up.
pub open spec fn dy(d: Direction) -> int {
    match d {
        Direction::UP | Direction::UPLEFT | Direction::UPRIGHT => -1,
        Direction::DOWN | Direction::DOWNLEFT | Direction::DOWNRIGHT => 1,
        Direction::LEFT | Direction::RIGHT => 0,
    }
}

/// The heading that a die roll stands for: 1 to 8, in the order
/// left, right, up, up-left, up-right, down, down-left, down-right.
pub open spec fn roll_direction(roll: int) -> Option<Direction> {
    if roll == 1 {
        Some(Direction::LEFT)
    } else if roll == 2 {
        Some(Direction::RIGHT)
    } else if roll == 3 {
        Some(Direction::UP)
    } else if roll == 4 {
        Some(Direction::UPLEFT)
    } else if roll == 5 {
        Some(Direction::UPRIGHT)
    } else if roll == 6 {
        Some(Direction::DOWN)
    } else if roll == 7 {
        Some(Direction::DOWNLEFT)
    } else if roll == 8 {
        Some(Direction::DOWNRIGHT)
    } else {
        None
    }
}

/// Maps a roll to its heading; rolls outside 1..=8 have none.
pub fn direction_of_roll(dir: u8) -> (res: Option<Direction>)
    ensures
        res == roll_direction(dir as int),
{
    match dir {
        1 => Some(Direction::LEFT),
        2 => Some(Direction::RIGHT),
        3 => Some(Direction::UP),
        4 => Some(Direction::UPLEFT),
        5 => Some(Direction::UPRIGHT),
        6 => Some(Direction::DOWN),
        7 => Some(Direction::DOWNLEFT),
        8 => Some(Direction::DOWNRIGHT),
        _ => None,
    }
}

/// The heading whose steps are the given signs; no heading stands for (0, 0).
pub open spec fn heading_of(sx: int, sy: int) -> Option<Direction> {
    if sx < 0 {
        if sy < 0 { Some(Direction::UPLEFT) }
        else if sy == 0 { Some(Direction::LEFT) }
        else { Some(Direction::DOWNLEFT) }
    } else if sx == 0 {
        if sy < 0 { Some(Direction::UP) }
        else if sy == 0 { None }
        else { Some(Direction::DOWN) }
    } else {
        if sy < 0 { Some(Direction::UPRIGHT) }
        else if sy == 0 { Some(Direction::RIGHT) }
        else { Some(Direction::DOWNRIGHT) }
    }
}

/// Every heading is the heading of its own steps, and the steps of a heading
/// are never both zero.
pub proof fn lemma_heading_of_steps(d: Direction)
    ensures
        heading_of(dx(d), dy(d)) == Some(d),
        dx(d) != 0 || dy(d) != 0,
        -1 <= dx(d) <= 1,
        -1 <= dy(d) <= 1,
{
}

} // verus!
