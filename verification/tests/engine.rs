use life::Cell;
use life::Cell::{Dead, Live};
use life::{Engine, Rule};

#[test]
fn engine_lower_right_blinker() {
    let mut blinker = Engine::builder().grid([
        [Dead, Dead, Dead, Dead],
        [Dead, Dead, Dead, Dead],
        [Dead, Dead, Dead, Dead],
        [Live, Dead, Live, Live],
    ]).build();

    let initial_grid = blinker.cells();

    blinker.evolve();
    blinker.evolve();

    assert_eq!(blinker.cells(), initial_grid);
}

#[test]
fn engine_upper_left_blinker() {
    let mut blinker = Engine::builder().grid([
        [Live, Live, Dead, Live],
        [Dead, Dead, Dead, Dead],
        [Dead, Dead, Dead, Dead],
        [Dead, Dead, Dead, Dead],
    ]).build();

    let initial_grid = blinker.cells();

    blinker.evolve();
    blinker.evolve();

    assert_eq!(blinker.cells(), initial_grid);
}

#[test]
fn engine_glider() {
    let mut glider = Engine::builder().grid([
        [Dead, Dead, Dead, Dead, Dead],
        [Dead, Dead, Dead, Dead, Dead],
        [Dead, Dead, Dead, Live, Dead],
        [Dead, Dead, Dead, Dead, Live],
        [Dead, Dead, Live, Live, Live],
    ]).build();

    glider.evolve();
    assert_eq!(glider.cells(),
        [
            Dead, Dead, Dead, Live, Dead,
            Dead, Dead, Dead, Dead, Dead,
            Dead, Dead, Dead, Dead, Dead,
            Dead, Dead, Live, Dead, Live,
            Dead, Dead, Dead, Live, Live
        ].into_iter().collect::<Vec<Cell>>()
    );

    glider.evolve();
    assert_eq!(glider.cells(),
        [
            Dead, Dead, Dead, Live, Live,
            Dead, Dead, Dead, Dead, Dead,
            Dead, Dead, Dead, Dead, Dead,
            Dead, Dead, Dead, Dead, Live,
            Dead, Dead, Live, Dead, Live
        ].into_iter().collect::<Vec<Cell>>()
    );

    glider.evolve();
    assert_eq!(glider.cells(),
        [
            Dead, Dead, Dead, Live, Live,
            Dead, Dead, Dead, Dead, Dead,
            Dead, Dead, Dead, Dead, Dead,
            Dead, Dead, Dead, Live, Dead,
            Live, Dead, Dead, Dead, Live
        ].into_iter().collect::<Vec<Cell>>()
    );

    glider.evolve();
    assert_eq!(glider.cells(),
        [
            Live, Dead, Dead, Live, Live,
            Dead, Dead, Dead, Dead, Dead,
            Dead, Dead, Dead, Dead, Dead,
            Dead, Dead, Dead, Dead, Live,
            Live, Dead, Dead, Dead, Dead
        ].into_iter().collect::<Vec<Cell>>()
    );
}

#[test]
fn engine_radar_seeds_automaton() {
    let mut radar = Engine::builder().rule(Rule::new([2].into_iter().collect(), [].into_iter().collect())).grid([
        [Dead, Dead, Dead, Dead, Dead, Dead],
        [Dead, Live, Dead, Dead, Dead, Dead],
        [Dead, Dead, Live, Live, Dead, Dead],
        [Dead, Dead, Live, Live, Dead, Dead],
        [Dead, Dead, Dead, Dead, Live, Dead],
        [Dead, Dead, Dead, Dead, Dead, Dead],
    ]).build();

    let initial_grid = radar.cells();

    radar.evolve();
    radar.evolve();
    radar.evolve();
    radar.evolve();

    assert_eq!(radar.cells(), initial_grid);
}

#[test]
fn engine_flock_predecessor_flock_automaton() {
    let mut flock_predecessor = Engine::builder().rule(Rule::new([3].into_iter().collect(), [1, 2].into_iter().collect())).grid([
        [Dead, Dead, Dead, Dead, Dead, Dead, Dead],
        [Dead, Dead, Dead, Dead, Dead, Dead, Dead],
        [Dead, Dead, Live, Live, Live, Dead, Dead],
        [Dead, Dead, Live, Dead, Live, Dead, Dead],
        [Dead, Dead, Live, Live, Live, Dead, Dead],
        [Dead, Dead, Dead, Dead, Dead, Dead, Dead],
        [Dead, Dead, Dead, Dead, Dead, Dead, Dead],
    ]).build();

    flock_predecessor.evolve();
    flock_predecessor.evolve();
    flock_predecessor.evolve();

    let flock_grid = flock_predecessor.cells();

    flock_predecessor.evolve();

    assert_eq!(flock_predecessor.cells(), flock_grid);
}

#[test]
fn engine_moon_iceballs_automaton() {
    let mut moon = Engine::builder().rule(Rule::new([2, 5, 6, 7, 8].into_iter().collect(), (5..=8).into_iter().collect())).grid([
        [Dead, Dead, Dead, Dead, Dead, Dead],
        [Dead, Dead, Dead, Dead, Dead, Dead],
        [Dead, Dead, Dead, Dead, Dead, Dead],
        [Dead, Dead, Dead, Dead, Dead, Dead],
        [Dead, Dead, Live, Live, Dead, Dead],
        [Dead, Live, Dead, Dead, Live, Dead],
    ]).build();

    let initial_grid = moon.cells();

    moon.evolve();
    moon.evolve();
    moon.evolve();
    moon.evolve();
    moon.evolve();
    moon.evolve();

    assert_eq!(moon.cells(), initial_grid);
}

#[test]
fn engine_clear_grid() {
    let mut blinker = Engine::builder().grid([
        [Dead, Dead, Dead, Dead],
        [Dead, Dead, Dead, Dead],
        [Dead, Dead, Dead, Dead],
        [Live, Dead, Live, Live],
    ]).build();

    blinker.clear_grid();

    assert_eq!(blinker.cells(), [Dead; 16].into_iter().collect::<Vec<Cell>>());
}

#[test]
fn engine_resize_grid_to_bigger_odd() {
    let mut game = Engine::builder().grid([
        [Live, Live, Live],
        [Dead, Dead, Dead],
        [Live, Live, Live],
    ]).build();

    game.resize_grid(5);

    assert_eq!(game.grid_size(), 5);
    assert_eq!(game.cells(), [
        Dead, Dead, Dead, Dead, Dead,
        Dead, Live, Live, Live, Dead,
        Dead, Dead, Dead, Dead, Dead,
        Dead, Live, Live, Live, Dead,
        Dead, Dead, Dead, Dead, Dead
    ].into_iter().collect::<Vec<Cell>>());
}

#[test]
fn engine_resize_grid_to_lower_odd() {
    let mut game = Engine::builder().grid([
        [Dead, Dead, Dead, Dead, Dead],
        [Dead, Live, Live, Live, Dead],
        [Dead, Dead, Dead, Dead, Dead],
        [Dead, Live, Live, Live, Dead],
        [Dead, Dead, Dead, Dead, Dead]
    ]).build();

    game.resize_grid(3);

    assert_eq!(game.grid_size(), 3);
    assert_eq!(game.cells(), [
        Live, Live, Live,
        Dead, Dead, Dead,
        Live, Live, Live,
    ].into_iter().collect::<Vec<Cell>>());
}

#[test]
fn engine_resize_grid_to_bigger_even() {
    let mut game = Engine::builder().grid([
        [Live, Live, Live],
        [Dead, Dead, Dead],
        [Live, Live, Live],
    ]).build();

    game.resize_grid(4);

    assert_eq!(game.grid_size(), 4);
    assert_eq!(game.cells(), [
        Live, Live, Live, Dead,
        Dead, Dead, Dead, Dead,
        Live, Live, Live, Dead,
        Dead, Dead, Dead, Dead
    ].into_iter().collect::<Vec<Cell>>());
}

#[test]
fn engine_resize_grid_to_lower_even() {
    let mut game = Engine::builder().grid([
        [Live, Live, Live, Dead],
        [Dead, Dead, Dead, Dead],
        [Live, Live, Live, Dead],
        [Dead, Dead, Dead, Dead]
    ]).build();

    game.resize_grid(3);

    assert_eq!(game.grid_size(), 3);
    assert_eq!(game.cells(), [
        Live, Live, Live,
        Dead, Dead, Dead,
        Live, Live, Live,
    ].into_iter().collect::<Vec<Cell>>());
}

#[test]
fn get_existing_cell() {
    let game = Engine::builder().grid([[Live]]).build();

    assert_eq!(game.cell(0, 0), Some(&Live));
}

#[test]
fn get_non_existing_cell() {
    let game = Engine::builder().grid([[Live]]).build();

    assert_eq!(game.cell(0, 1), None);
}

#[test]
fn toggle_existing_cell() {
    let mut game = Engine::builder().grid([[Live]]).build();

    game.toggle_cell(0, 0);

    assert_eq!(game.cells(), [Dead].into_iter().collect::<Vec<Cell>>());
}

#[test]
fn toggle_non_existing_cell() {
    let mut game = Engine::builder().grid([[Live]]).build();

    game.toggle_cell(0, 1);

    assert_eq!(game.cells(), [Live].into_iter().collect::<Vec<Cell>>());
}
