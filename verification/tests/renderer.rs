use wrg_snake::renderer::{cell_color, CellKind, CellRect, CELL_PADDING, CELL_SIZE, GRID_PADDING};
use wrg_snake::{calculate_grid_canvas_size, Food, Grid, IntVector2, Snake, SnakeGameRenderer};

#[test]
fn canvas_holds_all_cells_and_both_margins() {
    assert_eq!(calculate_grid_canvas_size(&Grid::new(15, 15)), (348, 348));
    assert_eq!(calculate_grid_canvas_size(&Grid::new(1, 1)), (40, 40));
    assert_eq!(calculate_grid_canvas_size(&Grid::new(5, 3)), (128, 84));
    assert_eq!(calculate_grid_canvas_size(&Grid::new(u16::MAX, 1)), (1_441_788, 40));
}

#[test]
fn layout_constants_are_as_documented() {
    assert_eq!(CELL_SIZE, 20);
    assert_eq!(CELL_PADDING, 2);
    assert_eq!(GRID_PADDING, 10);
}

#[test]
fn cells_are_spaced_by_size_and_padding() {
    let origin = SnakeGameRenderer::draw_cell(0, 0, CellKind::GridMarker);
    assert_eq!(
        origin,
        CellRect { x: 10, y: 10, width: 20, height: 20, color: [235, 207, 178, 80], kind: CellKind::GridMarker }
    );
    let food = SnakeGameRenderer::draw_cell(3, 2, CellKind::Food);
    assert_eq!(
        food,
        CellRect { x: 76, y: 54, width: 20, height: 20, color: [179, 141, 151, 255], kind: CellKind::Food }
    );
    let far = SnakeGameRenderer::draw_cell(u16::MAX, 14, CellKind::Snake);
    assert_eq!(
        far,
        CellRect { x: 1_441_780, y: 318, width: 20, height: 20, color: [66, 75, 84, 255], kind: CellKind::Snake }
    );
}

#[test]
fn every_kind_has_its_colour() {
    assert_eq!(cell_color(CellKind::GridMarker), [235, 207, 178, 80]);
    assert_eq!(cell_color(CellKind::Food), [179, 141, 151, 255]);
    assert_eq!(cell_color(CellKind::Snake), [66, 75, 84, 255]);
}

#[test]
fn render_lists_markers_then_food_then_snake() {
    let grid = Grid::new(2, 3);
    let mut snake = Snake::new(IntVector2 { x: 0, y: 0 }, 2);
    snake.move_to(IntVector2 { x: 1, y: 0 });
    let foods = vec![Food::new(IntVector2 { x: 1, y: 2 })];
    let rects = SnakeGameRenderer::new().render(&grid, &snake, &foods);
    assert_eq!(rects.len(), 6 + 1 + 2);
    let mut expected = Vec::new();
    for x in 0..2u16 {
        for y in 0..3u16 {
            expected.push(SnakeGameRenderer::draw_cell(x, y, CellKind::GridMarker));
        }
    }
    expected.push(SnakeGameRenderer::draw_cell(1, 2, CellKind::Food));
    expected.push(SnakeGameRenderer::draw_cell(1, 0, CellKind::Snake));
    expected.push(SnakeGameRenderer::draw_cell(0, 0, CellKind::Snake));
    assert_eq!(rects, expected);
    assert_eq!(rects[4].x, 32);
    assert_eq!(rects[4].y, 32);
}

#[test]
fn render_reduces_coordinates_to_sixteen_bits() {
    let grid = Grid::new(1, 1);
    let snake = Snake::new(IntVector2 { x: -1, y: 65_537 }, 1);
    let rects = SnakeGameRenderer::new().render(&grid, &snake, &Vec::new());
    assert_eq!(rects.len(), 2);
    assert_eq!(rects[1], SnakeGameRenderer::draw_cell(u16::MAX, 1, CellKind::Snake));
}
