use snek::{cell_position, random_pos_in_grid, Apple, SnakeCollectibleGrower};

#[test]
fn standard_apple_yields_one() {
    let apple = Apple::new_standard_apple([120, 80], 40);
    assert_eq!(apple.on_collect(), 1);
    assert_eq!(apple.get_position(), [120, 80]);
}

#[test]
fn super_apple_yields_one() {
    let apple = Apple::new_super_apple([0, 40], 40);
    assert_eq!(apple.on_collect(), 1);
    assert_eq!(apple.get_position(), [0, 40]);
}

#[test]
fn yield_is_configurable() {
    let apple = Apple::new([0, 0], 40, 3);
    assert_eq!(apple.on_collect(), 3);
}

#[test]
fn relocate_keeps_yield() {
    let mut apple = Apple::new([0, 0], 40, 2);
    apple.move_to([200, -40]);
    assert_eq!(apple.get_position(), [200, -40]);
    assert_eq!(apple.on_collect(), 2);
}

#[test]
fn cell_corner() {
    assert_eq!(cell_position(40, 3, 7), [120, 280]);
    assert_eq!(cell_position(40, 0, 0), [0, 0]);
    assert_eq!(cell_position(-5, 2, 1), [-10, -5]);
}

#[test]
fn random_cells_stay_in_grid() {
    let mut seen_other_than_corner = false;
    for _ in 0..300 {
        let p = random_pos_in_grid(40, 3, 2);
        assert_eq!(p[0] % 40, 0);
        assert_eq!(p[1] % 40, 0);
        assert!(p[0] >= 0 && p[0] <= 120);
        assert!(p[1] >= 0 && p[1] <= 80);
        if p != [120, 80] {
            seen_other_than_corner = true;
        }
    }
    assert!(seen_other_than_corner);
}

#[test]
fn random_cell_of_single_cell_grid() {
    assert_eq!(random_pos_in_grid(40, 0, 0), [0, 0]);
}
