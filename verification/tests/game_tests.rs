use snake::game::{Snake, StepEvent, EAST, NORTH, SOUTH, WEST};
use snake::render::{clear_tile, quit, win};

fn occupied(s: &Snake) -> Vec<u8> {
    s.body[..s.len as usize].to_vec()
}

fn assert_distinct(s: &Snake) {
    let occ = occupied(s);
    for i in 0..occ.len() {
        for j in (i + 1)..occ.len() {
            assert_ne!(occ[i], occ[j], "segments {i} and {j} share a cell");
        }
    }
}

#[test]
fn new_snake_starts_in_the_middle_heading_east() {
    let s = Snake::new();
    assert_eq!(s.len, 1);
    assert_eq!(s.dir, EAST);
    assert_eq!(s.body[0], 136);
    assert_eq!(s.apple, 0);
    assert_distinct(&s);
}

#[test]
fn initial_apple_placement_rejects_the_snake_cell() {
    let mut s = Snake::new();
    assert!(!s.try_place_apple(136), "the one occupied cell must be rejected");
    assert_eq!(s.apple, 0);
    assert!(s.try_place_apple(42));
    assert_eq!(s.apple, 42);
}

#[test]
fn ordinary_move_advances_the_head_and_vacates_the_tail() {
    let mut s = Snake::new();
    let ev = s.step();
    assert_eq!(ev, StepEvent::Moved { vacated: 136 });
    assert_eq!(s.body[0], 137);
    assert_eq!(s.len, 1);
    assert_distinct(&s);
    assert!(!occupied(&s).contains(&s.apple));
}

#[test]
fn segments_stay_distinct_and_apple_stays_free_over_many_ticks() {
    // From the middle of the row, seven eastward ticks fit before the wall.
    let mut s = Snake::new();
    s.apple = 255;
    for _ in 0..7 {
        let ev = s.step();
        assert!(matches!(ev, StepEvent::Moved { .. }));
        assert_distinct(&s);
        assert!(!occupied(&s).contains(&s.apple));
    }
}

#[test]
fn reversal_is_ignored_and_the_heading_kept() {
    let mut s = Snake::new();
    assert_eq!(s.dir, EAST);
    s.set_direction(WEST);
    assert_eq!(s.dir, EAST, "a reversal must leave the heading as it was");
    s.set_direction(SOUTH);
    assert_eq!(s.dir, SOUTH);
    s.set_direction(NORTH);
    assert_eq!(s.dir, SOUTH, "a reversal must leave the heading as it was");
    s.set_direction(WEST);
    assert_eq!(s.dir, WEST);
    s.set_direction(EAST);
    assert_eq!(s.dir, WEST);
    s.set_direction(NORTH);
    assert_eq!(s.dir, NORTH);
    s.set_direction(SOUTH);
    assert_eq!(s.dir, NORTH);
}

#[test]
fn east_wall_loses_and_the_exit_restores_the_terminal() {
    let mut s = Snake::new();
    s.body[0] = 15; // x = 15, the eastern edge
    s.apple = 100;
    let ev = s.step();
    assert_eq!(ev, StepEvent::Lost);
    // The lost state is left untouched.
    assert_eq!(s.body[0], 15);
    assert_eq!(s.len, 1);
    // The quit path exits 0 with the terminal put back.
    let plan = quit();
    assert_eq!(plan.status, 0);
    assert_eq!(plan.screen, b"\x1b[?25h\x1b[?1049l\x1b[2J\x1b[H".to_vec());
    assert!(plan.message.is_empty());
}

#[test]
fn every_wall_loses() {
    for (pos, dir) in [(15u8, EAST), (250u8, SOUTH), (16u8, WEST), (3u8, NORTH)] {
        let mut s = Snake::new();
        s.body[0] = pos;
        s.dir = dir;
        s.apple = 100;
        assert_eq!(s.step(), StepEvent::Lost, "no loss at pos {pos} dir {dir}");
    }
}

#[test]
fn biting_a_live_segment_loses() {
    let mut s = Snake::new();
    s.body[0] = 137;
    s.body[1] = 136;
    s.len = 2;
    s.apple = 0;
    s.dir = WEST;
    assert_eq!(s.step(), StepEvent::Lost);
}

#[test]
fn eating_grows_and_a_fresh_apple_lands_off_the_body() {
    let mut s = Snake::new();
    assert_eq!(s.body[0], 136);
    s.apple = 137; // adjacent in the current heading (east)
    let ev = s.step();
    assert_eq!(ev, StepEvent::Ate);
    assert_eq!(s.len, 2);
    assert_eq!(s.body[0], 137);
    assert_eq!(s.body[1], 136);
    assert_distinct(&s);

    // The vacated apple tile (now under the head) gets erased on screen.
    assert_eq!(clear_tile(s.apple), b"\x1b[10;21H\x1b[0m  ".to_vec());

    // Occupied cells are rejected until a free one comes up.
    assert!(!s.try_place_apple(137));
    assert!(!s.try_place_apple(136));
    assert_eq!(s.apple, 137, "a rejected sample must change nothing");
    assert!(s.try_place_apple(5));
    assert_eq!(s.apple, 5);
    assert!(!occupied(&s).contains(&s.apple));
    assert_distinct(&s);
}

#[test]
fn eating_at_full_length_wins() {
    let mut s = Snake::new();
    // 255 live segments covering cells 0..=254: the head at 254, the rest
    // trailing as 0, 1, ..., 253.
    s.body[0] = 254;
    for i in 1..255usize {
        s.body[i] = (i - 1) as u8;
    }
    s.len = 255;
    s.dir = EAST;
    s.apple = 255; // the one free cell, one step east of the head
    assert_distinct(&s);
    let ev = s.step();
    assert_eq!(ev, StepEvent::Won);
    assert_eq!(s.len, 255, "a win must not grow the snake further");

    let plan = win();
    assert_eq!(plan.status, 0);
    assert_eq!(plan.screen, b"\x1b[?25h\x1b[?1049l\x1b[2J\x1b[H".to_vec());
    assert_eq!(plan.message, b"you won!\n".to_vec());
}

#[test]
fn moving_into_the_vacating_tail_cell_still_loses() {
    // The collision check runs against the body before the shift, the tail
    // included, so circling straight onto the tail's cell loses.
    let mut s = Snake::new();
    s.body[0] = 17;
    s.body[1] = 16;
    s.body[2] = 32;
    s.body[3] = 33;
    s.len = 4;
    s.apple = 0;
    s.dir = SOUTH; // 17 -> 33, the tail's cell
    assert_eq!(s.step(), StepEvent::Lost);
}
