use arena_sim::input::{handle_input, reduce_direction, Direction, RawInput};

fn dir(x: i8, y: i8) -> Direction {
    Direction { x, y }
}

#[test]
fn all_sixteen_key_combinations() {
    // (left, right, down, up) -> direction
    let table = [
        ((false, false, false, false), dir(0, 0)),
        ((true, true, true, true), dir(0, 0)),
        ((true, true, false, false), dir(0, 0)),
        ((false, false, true, true), dir(0, 0)),
        ((false, true, false, false), dir(1, 0)),
        ((false, true, true, true), dir(1, 0)),
        ((false, true, false, true), dir(1, 1)),
        ((false, false, false, true), dir(0, 1)),
        ((true, true, false, true), dir(0, 1)),
        ((true, false, false, true), dir(-1, 1)),
        ((true, false, false, false), dir(-1, 0)),
        ((true, false, true, true), dir(-1, 0)),
        ((true, false, true, false), dir(-1, -1)),
        ((false, false, true, false), dir(0, -1)),
        ((true, true, true, false), dir(0, -1)),
        ((false, true, true, false), dir(1, -1)),
    ];
    let mut distinct: Vec<Direction> = Vec::new();
    for ((l, r, d, u), expected) in table {
        let got = reduce_direction(l, r, d, u);
        assert_eq!(got, expected, "keys {:?}", (l, r, d, u));
        if !distinct.contains(&got) {
            distinct.push(got);
        }
    }
    assert_eq!(distinct.len(), 9);
}

fn raw(up: bool, dash: bool, attack: bool) -> RawInput {
    RawInput {
        left: false,
        right: false,
        down: false,
        up,
        dash_primary_just_pressed: dash,
        dash_secondary_just_pressed: false,
        attack_held: attack,
    }
}

#[test]
fn dash_needs_a_direction() {
    let standing = handle_input(raw(false, true, false));
    assert!(!standing.dash);
    let moving = handle_input(raw(true, true, false));
    assert!(moving.dash);
    assert_eq!(moving.direction, dir(0, 1));
}

#[test]
fn either_dash_key_dashes() {
    let mut r = raw(true, false, false);
    r.dash_secondary_just_pressed = true;
    assert!(handle_input(r).dash);
    assert!(!handle_input(raw(true, false, false)).dash);
}

#[test]
fn attack_follows_the_held_button() {
    assert!(handle_input(raw(false, false, true)).attack);
    assert!(!handle_input(raw(false, false, false)).attack);
}
