use game_of_life::color::Rgba;
use game_of_life::game_compute_pipeline::GameComputePipeline;
use game_of_life::life::Grid;

const LIVE: Rgba = Rgba { r: 255, g: 0, b: 0, a: 255 };
const DEAD: Rgba = Rgba { r: 0, g: 0, b: 0, a: 255 };

fn blinker_engine() -> GameComputePipeline {
    let g = Grid::from_cells(3, 3, vec![0, 0, 0, 1, 1, 1, 0, 0, 0]);
    GameComputePipeline::from_grid(g)
}

#[test]
fn double_buffer_roles_swap() {
    // After a step, the scratch grid is exactly the one read this step,
    // and the grid read next step is the one written this step.
    let before = vec![0, 0, 0, 1, 1, 1, 0, 0, 0];
    let mut engine = blinker_engine();
    engine.compute(LIVE, DEAD);
    assert_eq!(engine.life_out.cells, before);
    assert_eq!(engine.life_in.cells, vec![0, 1, 0, 0, 1, 0, 0, 1, 0]);
}

#[test]
fn image_reflects_state_after_update() {
    // Phase ordering: the colorized output reflects the life state after
    // this step's update, never the state the step read.
    let mut engine = blinker_engine();
    engine.compute(LIVE, DEAD);
    let img = engine.view();
    // (0,1) was alive before the step and is dead after it
    assert_eq!(img[1 * 3 + 0], DEAD);
    // (1,0) was dead before the step and is alive after it
    assert_eq!(img[0 * 3 + 1], LIVE);
    for y in 0..3usize {
        for x in 0..3usize {
            let expect = if engine.life_in.is_alive(x, y) { LIVE } else { DEAD };
            assert_eq!(img[y * 3 + x], expect);
        }
    }
}

#[test]
fn recolor_is_idempotent() {
    // Recomputing the colorize phase alone, on an unchanged grid, yields
    // a pixel-identical image.
    let mut engine = blinker_engine();
    engine.compute(LIVE, DEAD);
    let after_step = engine.view().clone();
    engine.recolor(LIVE, DEAD);
    assert_eq!(engine.view(), &after_step);
    engine.recolor(LIVE, DEAD);
    assert_eq!(engine.view(), &after_step);
    // and the grids did not move
    assert_eq!(engine.life_in.cells, vec![0, 1, 0, 0, 1, 0, 0, 1, 0]);
}

#[test]
fn recolor_with_new_colors_recolors_every_pixel() {
    let mut engine = blinker_engine();
    engine.compute(LIVE, DEAD);
    let live2 = Rgba { r: 0, g: 255, b: 0, a: 255 };
    let dead2 = Rgba { r: 10, g: 10, b: 10, a: 255 };
    engine.recolor(live2, dead2);
    let img = engine.view();
    for y in 0..3usize {
        for x in 0..3usize {
            let expect = if engine.life_in.is_alive(x, y) { live2 } else { dead2 };
            assert_eq!(img[y * 3 + x], expect);
        }
    }
}

#[test]
fn new_engine_has_boolean_cells_of_the_right_size() {
    let engine = GameComputePipeline::new(16, 16);
    assert_eq!(engine.life_in.width, 16);
    assert_eq!(engine.life_in.height, 16);
    assert_eq!(engine.life_in.cells.len(), 256);
    assert_eq!(engine.life_out.cells.len(), 256);
    assert!(engine.life_in.cells.iter().all(|&c| c <= 1));
    assert!(engine.life_out.cells.iter().all(|&c| c <= 1));
    assert_eq!(engine.view().len(), 256);
}

#[test]
fn reset_keeps_dimensions_and_randomizes() {
    // Two resets must, with overwhelming probability, produce different
    // grids of unchanged dimensions.
    let mut engine = GameComputePipeline::new(16, 16);
    engine.compute(LIVE, DEAD);
    let image_before = engine.view().clone();
    engine.reset();
    let first = engine.life_in.cells.clone();
    assert_eq!(engine.life_in.width, 16);
    assert_eq!(engine.life_in.height, 16);
    assert_eq!(engine.life_in.cells.len(), 256);
    // the image is untouched until the next step
    assert_eq!(engine.view(), &image_before);
    engine.reset();
    let second = engine.life_in.cells.clone();
    assert_eq!(engine.life_in.width, 16);
    assert_eq!(engine.life_in.height, 16);
    // 256 independent coin flips twice: equality is vanishingly unlikely
    assert_ne!(first, second);
}

#[test]
fn compute_records_update_then_colorize() {
    // One submission, two dispatches: phase 0 (update) strictly before
    // phase 1 (colorize), both with the same push parameters.
    let mut engine = blinker_engine();
    let plans = engine.compute(LIVE, DEAD);
    assert_eq!(plans.len(), 2);
    assert_eq!(plans[0].step, 0);
    assert_eq!(plans[1].step, 1);
    for p in &plans {
        assert_eq!(p.life_color, LIVE);
        assert_eq!(p.dead_color, DEAD);
        // 3x3 grid: one partial 8x8 tile covers each axis
        assert_eq!(p.groups_x, 1);
        assert_eq!(p.groups_y, 1);
    }
}

#[test]
fn dispatch_covers_grids_not_divisible_by_the_tile() {
    let g = Grid::from_cells(37, 41, vec![0; 37 * 41]);
    let mut engine = GameComputePipeline::from_grid(g);
    let plans = engine.compute(LIVE, DEAD);
    // ceil(37/8) = 5, ceil(41/8) = 6
    assert_eq!(plans[0].groups_x, 5);
    assert_eq!(plans[0].groups_y, 6);
    assert!(plans[0].groups_x * 8 >= 37);
    assert!(plans[0].groups_y * 8 >= 41);

    let g = Grid::from_cells(16, 8, vec![0; 16 * 8]);
    let mut engine = GameComputePipeline::from_grid(g);
    let plans = engine.compute(LIVE, DEAD);
    assert_eq!(plans[0].groups_x, 2);
    assert_eq!(plans[0].groups_y, 1);
}
