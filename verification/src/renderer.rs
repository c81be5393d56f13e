//! Where the cells of a game go on a canvas.
//!
//! Nothing is drawn here: [`SnakeGameRenderer::render`] returns the squares
//! to draw, in drawing order, and a host puts them on its canvas.

use crate::food::Food;
use crate::game::model::food_cells;
use crate::grid::Grid;
use crate::snake::Snake;
use crate::vector::IntVector2;
use vstd::prelude::*;

verus! {

/// The side of the square drawn for a cell, in pixels.
pub const CELL_SIZE: u16 = 20;

/// The gap between two neighbouring cells, in pixels.
pub const CELL_PADDING: u16 = 2;

/// The margin around the board, in pixels.
pub const GRID_PADDING: u16 = 10;

/// What is drawn on a cell.
#[derive(Debug, Clone, Copy, PartialEq, Eq, Structural)]
pub enum CellKind {
    /// The faint marker under every cell of the board.
    GridMarker,
    /// A piece of food.
    Food,
    /// A segment of the snake.
    Snake,
}

/// A filled square on the canvas.
#[derive(Debug, Clone, Copy, PartialEq, Eq)]
pub struct CellRect {
    /// The left edge, in pixels.
    pub x: u32,
    /// The lower edge, in pixels.
    pub y: u32,
    /// The width, in pixels.
    pub width: u16,
    /// The height, in pixels.
    pub height: u16,
    /// Red, green, blue and opacity.
    pub color: [u8; 4],
    /// What the square shows.
    pub kind: CellKind,
}

/// The pixels that `cells` cells in a row take up, margins included.
pub open spec fn canvas_extent(cells: u16) -> int {
    cells * (CELL_SIZE + CELL_PADDING) - CELL_PADDING + 2 * GRID_PADDING
}

/// The pixel at which the cell with index `index` along one axis begins.
pub open spec fn cell_origin(index: u16) -> int {
    GRID_PADDING + index * CELL_SIZE + index * CELL_PADDING
}

/// The colour of each kind of square.
pub open spec fn color_of(kind: CellKind) -> Seq<u8> {
    match kind {
        CellKind::GridMarker => seq![235u8, 207u8, 178u8, 80u8],
        CellKind::Food => seq![179u8, 141u8, 151u8, 255u8],
        CellKind::Snake => seq![66u8, 75u8, 84u8, 255u8],
    }
}

/// Whether `rect` is the square of the given kind on column `x` and row `y`.
pub open spec fn is_cell_rect(rect: CellRect, x: u16, y: u16, kind: CellKind) -> bool {
    &&& rect.x == cell_origin(x)
    &&& rect.y == cell_origin(y)
    &&& rect.width == CELL_SIZE
    &&& rect.height == CELL_SIZE
    &&& rect.color@ == color_of(kind)
    &&& rect.kind == kind
}

/// The column or row that a coordinate is drawn on: the coordinate reduced
/// to sixteen bits.
pub open spec fn drawn_index(coordinate: i32) -> u16 {
    (coordinate as int % 0x1_0000) as u16
}

/// Whether `rects` is the drawing of a board with the given contents: a
/// marker for every cell, column by column; then the food; then the snake,
/// head first.
pub open spec fn is_drawing(
    rects: Seq<CellRect>,
    grid: Grid,
    snake_cells: Seq<IntVector2>,
    foods: Seq<IntVector2>,
) -> bool {
    let markers = grid.width as int * grid.height as int;
    &&& rects.len() == markers + foods.len() + snake_cells.len()
    &&& forall|x: int, y: int|
        0 <= x < grid.width && 0 <= y < grid.height ==> is_cell_rect(
            #[trigger] rects[x * grid.height as int + y],
            x as u16,
            y as u16,
            CellKind::GridMarker,
        )
    &&& forall|i: int|
        0 <= i < foods.len() ==> is_cell_rect(
            #[trigger] rects[markers + i],
            drawn_index(foods[i].x),
            drawn_index(foods[i].y),
            CellKind::Food,
        )
    &&& forall|i: int|
        0 <= i < snake_cells.len() ==> is_cell_rect(
            #[trigger] rects[markers + foods.len() + i],
            drawn_index(snake_cells[i].x),
            drawn_index(snake_cells[i].y),
            CellKind::Snake,
        )
}

/// Returns the width and height of the canvas that shows `grid`.
pub fn calculate_grid_canvas_size(grid: &Grid) -> (size: (u32, u32))
    ensures
        size.0 == canvas_extent(grid.width),
        size.1 == canvas_extent(grid.height),
{
    let pitch: u32 = (CELL_SIZE + CELL_PADDING) as u32;
    let margin: u32 = (2 * GRID_PADDING - CELL_PADDING) as u32;
    let grid_width: u32 = (grid.width as u32) * pitch + margin;
    let grid_height: u32 = (grid.height as u32) * pitch + margin;
    (grid_width, grid_height)
}

/// Returns the colour of a kind of square.
pub fn cell_color(kind: CellKind) -> (color: [u8; 4])
    ensures
        color@ == color_of(kind),
{
    let color: [u8; 4] = match kind {
        CellKind::GridMarker => [235, 207, 178, 80],
        CellKind::Food => [179, 141, 151, 255],
        CellKind::Snake => [66, 75, 84, 255],
    };
    assert(color@ =~= color_of(kind));
    color
}

/// Reduces a coordinate to the column or row it is drawn on.
fn drawn(coordinate: i32) -> (index: u16)
    ensures
        index == drawn_index(coordinate),
{
    match coordinate.checked_rem_euclid(0x1_0000) {
        Some(index) => index as u16,
        None => 0,
    }
}

/// Lays a game out on a canvas.
pub struct SnakeGameRenderer {}

impl SnakeGameRenderer {
    /// Creates a renderer.
    pub fn new() -> (renderer: SnakeGameRenderer) {
        SnakeGameRenderer {  }
    }

    /// Returns the squares that show the board, the food and the snake, in
    /// the order in which they are to be drawn.
    pub fn render(&self, grid: &Grid, snake: &Snake, foods: &Vec<Food>) -> (rects: Vec<CellRect>)
        ensures
            is_drawing(rects@, *grid, snake@.occupied(), food_cells(foods@)),
    {
        let mut rects: Vec<CellRect> = Vec::new();
        let ghost height = grid.height as int;

        let mut x: u16 = 0;
        while x < grid.width
            invariant
                x <= grid.width,
                height == grid.height,
                rects@.len() == x * height,
                forall|i: int, j: int|
                    0 <= i < x && 0 <= j < height ==> is_cell_rect(
                        #[trigger] rects@[i * height + j],
                        i as u16,
                        j as u16,
                        CellKind::GridMarker,
                    ),
            decreases grid.width - x,
        {
            let mut y: u16 = 0;
            while y < grid.height
                invariant
                    x < grid.width,
                    y <= grid.height,
                    height == grid.height,
                    rects@.len() == x * height + y,
                    forall|i: int, j: int|
                        (0 <= i < x && 0 <= j < height) || (i == x && 0 <= j < y) ==> is_cell_rect(
                            #[trigger] rects@[i * height + j],
                            i as u16,
                            j as u16,
                            CellKind::GridMarker,
                        ),
                decreases grid.height - y,
            {
                let ghost before = rects@;
                rects.push(Self::draw_cell(x, y, CellKind::GridMarker));
                assert forall|i: int, j: int|
                    (0 <= i < x && 0 <= j < height) || (i == x && 0 <= j < y + 1) implies is_cell_rect(
                        #[trigger] rects@[i * height + j],
                        i as u16,
                        j as u16,
                        CellKind::GridMarker,
                    ) by {
                    if i == x && j == y {
                    } else {
                        assert(i * height + j < x * height + y) by (nonlinear_arith)
                            requires
                                (0 <= i < x && 0 <= j < height) || (i == x && 0 <= j < y),
                                0 <= y,
                        ;
                        assert(rects@[i * height + j] == before[i * height + j]);
                    }
                }
                y += 1;
            }
            assert(x * height + height == (x + 1) * height) by (nonlinear_arith);
            x += 1;
        }
        let ghost markers = rects@;
        let ghost marker_count = grid.width as int * height;
        assert(forall|i: int, j: int|
            0 <= i < grid.width && 0 <= j < height ==> 0 <= #[trigger] (i * height + j)
                < marker_count) by (nonlinear_arith)
            requires
                marker_count == grid.width as int * height,
                0 <= height,
        ;

        let mut f: usize = 0;
        while f < foods.len()
            invariant
                f <= foods.len(),
                markers.len() == marker_count,
                rects@.len() == marker_count + f,
                rects@.take(marker_count) == markers,
                forall|i: int|
                    0 <= i < f ==> is_cell_rect(
                        #[trigger] rects@[marker_count + i],
                        drawn_index(food_cells(foods@)[i].x),
                        drawn_index(food_cells(foods@)[i].y),
                        CellKind::Food,
                    ),
            decreases foods.len() - f,
        {
            let pos = foods[f].pos();
            rects.push(Self::draw_cell(drawn(pos.x), drawn(pos.y), CellKind::Food));
            assert(rects@.take(marker_count) =~= markers);
            f += 1;
        }
        let ghost food_count = foods@.len() as int;

        let cells = snake.positions();
        let mut s: usize = 0;
        while s < cells.len()
            invariant
                s <= cells.len(),
                markers.len() == marker_count,
                food_count == foods@.len(),
                cells@ == snake@.occupied(),
                rects@.len() == marker_count + food_count + s,
                rects@.take(marker_count) == markers,
                forall|i: int|
                    0 <= i < food_count ==> is_cell_rect(
                        #[trigger] rects@[marker_count + i],
                        drawn_index(food_cells(foods@)[i].x),
                        drawn_index(food_cells(foods@)[i].y),
                        CellKind::Food,
                    ),
                forall|i: int|
                    0 <= i < s ==> is_cell_rect(
                        #[trigger] rects@[marker_count + food_count + i],
                        drawn_index(cells@[i].x),
                        drawn_index(cells@[i].y),
                        CellKind::Snake,
                    ),
            decreases cells.len() - s,
        {
            let position = cells[s];
            rects.push(Self::draw_cell(drawn(position.x), drawn(position.y), CellKind::Snake));
            assert(rects@.take(marker_count) =~= markers);
            s += 1;
        }
        assert forall|i: int, j: int| 0 <= i < grid.width && 0 <= j < height implies is_cell_rect(
            #[trigger] rects@[i * height + j],
            i as u16,
            j as u16,
            CellKind::GridMarker,
        ) by {
            assert(0 <= i * height + j < marker_count);
            assert(rects@[i * height + j] == rects@.take(marker_count)[i * height + j]);
        }
        rects
    }

    /// Returns the square of the given kind for column `x` and row `y`.
    pub fn draw_cell(x: u16, y: u16, kind: CellKind) -> (rect: CellRect)
        ensures
            is_cell_rect(rect, x, y, kind),
    {
        assert(x * CELL_SIZE <= 0xffff * 20 && x * CELL_PADDING <= 0xffff * 2 && y * CELL_SIZE
            <= 0xffff * 20 && y * CELL_PADDING <= 0xffff * 2) by (nonlinear_arith)
            requires
                x <= 0xffff,
                y <= 0xffff,
                CELL_SIZE == 20,
                CELL_PADDING == 2,
        ;
        let pos_x: u32 = GRID_PADDING as u32 + (x as u32) * (CELL_SIZE as u32) + (x as u32) * (
        CELL_PADDING as u32);
        let pos_y: u32 = GRID_PADDING as u32 + (y as u32) * (CELL_SIZE as u32) + (y as u32) * (
        CELL_PADDING as u32);
        CellRect {
            x: pos_x,
            y: pos_y,
            width: CELL_SIZE,
            height: CELL_SIZE,
            color: cell_color(kind),
            kind,
        }
    }
}

} // verus!
