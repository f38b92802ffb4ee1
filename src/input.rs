use vstd::prelude::*;

verus! {

/// A movement direction on the key grid: each component is -1, 0 or 1.
/// Its unit vector is the direction scaled to length one, so diagonals have
/// components of magnitude one over the square root of two.
#[derive(Clone, Copy, Debug, PartialEq, Eq, Structural)]
pub struct Direction {
    pub x: i8,
    pub y: i8,
}

impl Direction {
    pub open spec fn wf(self) -> bool {
        -1 <= self.x <= 1 && -1 <= self.y <= 1
    }

    pub open spec fn is_zero(self) -> bool {
        self.x == 0 && self.y == 0
    }

    pub fn zero() -> (r: Direction)
        ensures
            r.is_zero(),
            r.wf(),
    {
        Direction { x: 0, y: 0 }
    }
}

/// The keys as sampled in one frame.
#[derive(Clone, Copy, Debug, PartialEq, Eq, Structural)]
pub struct RawInput {
    pub left: bool,
    pub right: bool,
    pub down: bool,
    pub up: bool,
    /// The first dash key went down this frame.
    pub dash_primary_just_pressed: bool,
    /// The second dash key went down this frame.
    pub dash_secondary_just_pressed: bool,
    /// The attack button is held.
    pub attack_held: bool,
}

/// What the player asks for, as read at the last frame.
#[derive(Clone, Copy, Debug, PartialEq, Eq, Structural)]
pub struct PlayerInput {
    pub direction: Direction,
    pub dash: bool,
    pub attack: bool,
}

pub open spec fn key_value(pressed: bool) -> int {
    if pressed {
        1
    } else {
        0
    }
}

/// Opposite keys cancel: the direction is right minus left and up minus down.
pub open spec fn reduced_direction(left: bool, right: bool, down: bool, up: bool) -> Direction {
    Direction {
        x: (key_value(right) - key_value(left)) as i8,
        y: (key_value(up) - key_value(down)) as i8,
    }
}

pub open spec fn input_of(raw: RawInput) -> PlayerInput {
    let direction = reduced_direction(raw.left, raw.right, raw.down, raw.up);
    PlayerInput {
        direction,
        dash: !direction.is_zero() && (raw.dash_primary_just_pressed
            || raw.dash_secondary_just_pressed),
        attack: raw.attack_held,
    }
}

impl PlayerInput {
    /// No direction, no dash, no attack.
    pub fn none() -> (r: PlayerInput)
        ensures
            r.direction.is_zero(),
            !r.dash,
            !r.attack,
    {
        PlayerInput { direction: Direction::zero(), dash: false, attack: false }
    }
}

/// Reduces the four movement keys to one of nine grid directions.
pub fn reduce_direction(left: bool, right: bool, down: bool, up: bool) -> (r: Direction)
    ensures
        r == reduced_direction(left, right, down, up),
        r.wf(),
{
    let x: i8 = (if right { 1i8 } else { 0i8 }) - (if left { 1i8 } else { 0i8 });
    let y: i8 = (if up { 1i8 } else { 0i8 }) - (if down { 1i8 } else { 0i8 });
    Direction { x, y }
}

/// Each of the sixteen key combinations gives one of nine grid directions:
/// a component is zero exactly when both or neither of its opposite keys are
/// held, and otherwise points toward the one that is held.
pub proof fn lemma_reduced_direction(left: bool, right: bool, down: bool, up: bool)
    ensures
        reduced_direction(left, right, down, up).wf(),
        reduced_direction(left, right, down, up).x == 0 <==> left == right,
        reduced_direction(left, right, down, up).x == 1 <==> right && !left,
        reduced_direction(left, right, down, up).x == -1 <==> left && !right,
        reduced_direction(left, right, down, up).y == 0 <==> down == up,
        reduced_direction(left, right, down, up).y == 1 <==> up && !down,
        reduced_direction(left, right, down, up).y == -1 <==> down && !up,
{
}

/// Samples one frame of keys into the input the next fixed tick consumes. A
/// dash is asked for only on the frame a dash key goes down, and only while a
/// direction is held; the attack follows the held button.
pub fn handle_input(raw: RawInput) -> (r: PlayerInput)
    ensures
        r == input_of(raw),
        r.direction.wf(),
{
    let direction = reduce_direction(raw.left, raw.right, raw.down, raw.up);
    let moving = direction.x != 0 || direction.y != 0;
    PlayerInput {
        direction,
        dash: moving && (raw.dash_primary_just_pressed || raw.dash_secondary_just_pressed),
        attack: raw.attack_held,
    }
}

} // verus!
