use toroidal_life::engine::{Engine, Msg, CELLULES_HEIGHT, CELLULES_WIDTH};
use toroidal_life::grid::Grid;

#[test]
fn new_engine_is_idle_and_all_dead() {
    let e = Engine::new(CELLULES_WIDTH, CELLULES_HEIGHT);
    assert!(!e.active());
    for i in 0..CELLULES_WIDTH * CELLULES_HEIGHT {
        assert!(!e.is_alive(i));
    }
}

#[test]
fn first_drive_activates_and_second_only_steps() {
    let width: usize = 6;
    let height: usize = 5;
    let mut e = Engine::new(width, height);
    assert!(!e.active());

    // First signal of any kind randomizes and activates.
    let redraw = e.update(Msg::Tick);
    assert!(redraw);
    assert!(e.active());

    // Record the randomized board and replay it on a plain grid.
    let mut replica = Grid::new(width, height);
    for i in 0..width * height {
        if e.is_alive(i) {
            replica.set_alive(i);
        }
    }

    // The second drive signal must not re-randomize: it advances exactly
    // one generation of the recorded board.
    replica.step();
    let redraw = e.update(Msg::Tick);
    assert!(redraw);
    assert!(e.active());
    for i in 0..width * height {
        assert_eq!(e.is_alive(i), replica.is_alive(i));
    }
}

#[test]
fn step_message_advances_one_generation() {
    let mut e = Engine::new(4, 4);
    e.update(Msg::Start); // activates and randomizes
    let mut replica = Grid::new(4, 4);
    for i in 0..16 {
        if e.is_alive(i) {
            replica.set_alive(i);
        }
    }
    replica.step();
    assert!(e.update(Msg::Step));
    for i in 0..16 {
        assert_eq!(e.is_alive(i), replica.is_alive(i));
    }
}

#[test]
fn toggle_message_flips_exactly_one_cell() {
    let mut e = Engine::new(4, 4);
    e.update(Msg::Tick); // activate
    let before: Vec<bool> = (0..16).map(|i| e.is_alive(i)).collect();
    assert!(e.update(Msg::ToggleCellule(5)));
    for i in 0..16 {
        if i == 5 {
            assert_eq!(e.is_alive(i), !before[i]);
        } else {
            assert_eq!(e.is_alive(i), before[i]);
        }
    }
}

#[test]
fn toggle_then_read_flips_once_and_twice_restores() {
    let mut e = Engine::new(4, 4);
    let before = e.is_alive(7);
    e.toggle(7);
    assert_eq!(e.is_alive(7), !before);
    e.toggle(7);
    assert_eq!(e.is_alive(7), before);
}

#[test]
fn unhandled_messages_leave_active_board_unchanged() {
    let mut e = Engine::new(4, 4);
    e.update(Msg::Tick); // activate
    let before: Vec<bool> = (0..16).map(|i| e.is_alive(i)).collect();
    assert!(!e.update(Msg::Random));
    assert!(!e.update(Msg::Start));
    assert!(!e.update(Msg::Reset));
    assert!(!e.update(Msg::Stop));
    for i in 0..16 {
        assert_eq!(e.is_alive(i), before[i]);
    }
}

#[test]
fn reset_kills_every_cell() {
    let mut e = Engine::new(5, 3);
    e.random_mutate();
    e.reset();
    for i in 0..15 {
        assert!(!e.is_alive(i));
    }
    assert!(!e.active());
}

#[test]
fn random_mutate_keeps_the_board_shape() {
    let mut e = Engine::new(5, 3);
    e.random_mutate();
    assert_eq!(e.grid().len(), 15);
    assert_eq!(e.grid().width(), 5);
    assert_eq!(e.grid().height(), 3);
}
