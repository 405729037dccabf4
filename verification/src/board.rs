use vstd::prelude::*;
use crate::error::{Rejection, Status, GameError, bad_request};
use crate::random::{random_ratio, random_in_range};
use crate::user::User;

verus! {

/// Number of rows and of tiles in a row of a new board.
pub const BOARD_SIZE: u8 = 30;

/// A new tile holds resources with chance `RESOURCE_CHANCE_NUM` in
/// `RESOURCE_CHANCE_DEN`.
pub const RESOURCE_CHANCE_NUM: u32 = 1;
pub const RESOURCE_CHANCE_DEN: u32 = 25;

/// Fewest and most resources that a resourceful tile holds.
pub const MIN_RESOURCES: u32 = 1;
pub const MAX_RESOURCES: u32 = 5;

/// What lies on a tile.
#[derive(PartialEq, Eq, Structural, Clone, Copy, Debug)]
#[allow(non_camel_case_types)]
pub enum TileType {
    EMPTY,
    RESOURCEFUL(u32),
}

/// One square of the board; `position` is (column, row).
#[derive(Clone, Copy, Debug)]
pub struct Tile {
    pub tile_type: TileType,
    pub position: (u8, u8),
}

/// The tile that a new board has at column `col` of row `row`, given
/// whether it came out resourceful and with how many resources.
pub open spec fn spec_make_tile(col: u8, row: u8, resources: Option<u32>) -> Tile {
    Tile {
        tile_type: match resources {
            Some(r) => TileType::RESOURCEFUL(r),
            None => TileType::EMPTY,
        },
        position: (col, row),
    }
}

/// Builds the tile at column `col` of row `row`: resourceful with the
/// given amount, or empty.
pub fn make_tile(col: u8, row: u8, resources: Option<u32>) -> (t: Tile)
    ensures
        t == spec_make_tile(col, row, resources),
{
    let tile_type = match resources {
        Some(r) => TileType::RESOURCEFUL(r),
        None => TileType::EMPTY,
    };
    Tile { tile_type, position: (col, row) }
}

/// The board as rows of tiles.
pub open spec fn rows(board: Seq<Vec<Tile>>) -> Seq<Seq<Tile>> {
    board.map_values(|r: Vec<Tile>| r@)
}

/// A tile as a new board may hold it at column `col` of row `row`.
pub open spec fn fresh_tile(t: Tile, col: int, row: int) -> bool {
    &&& t.position.0 == col
    &&& t.position.1 == row
    &&& match t.tile_type {
        TileType::EMPTY => true,
        TileType::RESOURCEFUL(r) => MIN_RESOURCES <= r <= MAX_RESOURCES,
    }
}

/// A board as `create_board` may return it: 30 rows of 30 tiles, each
/// tile knowing its own (column, row), each resourceful tile holding
/// between 1 and 5 resources.
pub open spec fn fresh_board(board: Seq<Seq<Tile>>) -> bool {
    &&& board.len() == BOARD_SIZE
    &&& forall|r: int| 0 <= r < BOARD_SIZE ==> #[trigger] board[r].len() == BOARD_SIZE
    &&& forall|r: int, c: int|
        0 <= r < BOARD_SIZE && 0 <= c < BOARD_SIZE ==> fresh_tile(#[trigger] board[r][c], c, r)
}

/// What a tile draw may come out as: nothing, or between 1 and 5
/// resources.
pub open spec fn valid_draw(d: Option<u32>) -> bool {
    match d {
        Some(r) => MIN_RESOURCES <= r <= MAX_RESOURCES,
        None => true,
    }
}

/// Lays the draws out as a board: the draw in row `r`, column `c` becomes
/// the tile at column `c` of row `r`, resourceful with the drawn amount or
/// empty.
pub fn board_from_draws(draws: &Vec<Vec<Option<u32>>>) -> (board: Vec<Vec<Tile>>)
    requires
        draws@.len() == BOARD_SIZE,
        forall|r: int| 0 <= r < BOARD_SIZE ==> #[trigger] draws@[r]@.len() == BOARD_SIZE,
    ensures
        rows(board@).len() == BOARD_SIZE,
        forall|r: int| 0 <= r < BOARD_SIZE ==> #[trigger] rows(board@)[r].len() == BOARD_SIZE,
        forall|r: int, c: int|
            0 <= r < BOARD_SIZE && 0 <= c < BOARD_SIZE ==> #[trigger] rows(board@)[r][c]
                == spec_make_tile(c as u8, r as u8, draws@[r]@[c]),
{
    let mut board: Vec<Vec<Tile>> = Vec::new();
    let mut row_id: u8 = 0;
    while row_id < BOARD_SIZE
        invariant
            row_id <= BOARD_SIZE,
            draws@.len() == BOARD_SIZE,
            forall|r: int| 0 <= r < BOARD_SIZE ==> #[trigger] draws@[r]@.len() == BOARD_SIZE,
            board@.len() == row_id,
            forall|r: int| 0 <= r < row_id ==> #[trigger] board@[r]@.len() == BOARD_SIZE,
            forall|r: int, c: int|
                0 <= r < row_id && 0 <= c < BOARD_SIZE ==> #[trigger] board@[r]@[c]
                    == spec_make_tile(c as u8, r as u8, draws@[r]@[c]),
        decreases BOARD_SIZE - row_id,
    {
        let draw_row = &draws[row_id as usize];
        let mut row: Vec<Tile> = Vec::new();
        let mut tile_id: u8 = 0;
        while tile_id < BOARD_SIZE
            invariant
                tile_id <= BOARD_SIZE,
                row_id < BOARD_SIZE,
                draw_row@.len() == BOARD_SIZE,
                row@.len() == tile_id,
                forall|c: int| 0 <= c < tile_id ==> #[trigger] row@[c]
                    == spec_make_tile(c as u8, row_id, draw_row@[c]),
            decreases BOARD_SIZE - tile_id,
        {
            row.push(make_tile(tile_id, row_id, draw_row[tile_id as usize]));
            tile_id = tile_id + 1;
        }
        board.push(row);
        row_id = row_id + 1;
    }
    proof {
        assert forall|r: int| 0 <= r < BOARD_SIZE implies #[trigger] rows(board@)[r].len() == BOARD_SIZE by {
        }
        assert forall|r: int, c: int| 0 <= r < BOARD_SIZE && 0 <= c < BOARD_SIZE implies
            #[trigger] rows(board@)[r][c] == spec_make_tile(c as u8, r as u8, draws@[r]@[c]) by {
            assert(rows(board@)[r] == board@[r]@);
        }
    }
    board
}

/// Draws the content of one tile: a coin that comes up with chance
/// `numerator` in `denominator` decides whether the tile is resourceful,
/// and only then between 1 and 5 resources are drawn. A coin that never
/// comes up gives an empty tile; one that always comes up, a resourceful
/// one.
fn draw_tile(numerator: u32, denominator: u32) -> (d: Option<u32>)
    requires
        0 < denominator,
        numerator <= denominator,
    ensures
        valid_draw(d),
        numerator == 0 ==> d is None,
        numerator == denominator ==> d is Some,
{
    let resourceful = random_ratio(numerator, denominator);
    if resourceful {
        Some(random_in_range(MIN_RESOURCES, MAX_RESOURCES))
    } else {
        None
    }
}

/// Creates a new board: draws every tile, row by row and left to right
/// in each row, then lays the draws out with `board_from_draws`. Each tile
/// independently holds resources with chance 1 in 25, and then between 1
/// and 5 of them, drawn at random.
pub fn create_board() -> (board: Vec<Vec<Tile>>)
    ensures
        fresh_board(rows(board@)),
{
    create_board_with_chance(RESOURCE_CHANCE_NUM, RESOURCE_CHANCE_DEN)
}

/// Creates a board whose tiles each hold resources with chance
/// `numerator` in `denominator` (see `create_board`). With a zero chance
/// every tile is empty; with certainty every tile is resourceful.
pub fn create_board_with_chance(numerator: u32, denominator: u32) -> (board: Vec<Vec<Tile>>)
    requires
        0 < denominator,
        numerator <= denominator,
    ensures
        fresh_board(rows(board@)),
        numerator == 0 ==> forall|r: int, c: int|
            0 <= r < BOARD_SIZE && 0 <= c < BOARD_SIZE ==> #[trigger] rows(board@)[r][c].tile_type
                == TileType::EMPTY,
        numerator == denominator ==> forall|r: int, c: int|
            0 <= r < BOARD_SIZE && 0 <= c < BOARD_SIZE ==> #[trigger] rows(board@)[r][c].tile_type
                != TileType::EMPTY,
{
    let mut draws: Vec<Vec<Option<u32>>> = Vec::new();
    let mut row_id: u8 = 0;
    while row_id < BOARD_SIZE
        invariant
            0 < denominator,
            numerator <= denominator,
            row_id <= BOARD_SIZE,
            draws@.len() == row_id,
            forall|r: int| 0 <= r < row_id ==> #[trigger] draws@[r]@.len() == BOARD_SIZE,
            forall|r: int, c: int|
                0 <= r < row_id && 0 <= c < BOARD_SIZE ==> {
                    &&& valid_draw(#[trigger] draws@[r]@[c])
                    &&& numerator == 0 ==> draws@[r]@[c] is None
                    &&& numerator == denominator ==> draws@[r]@[c] is Some
                },
        decreases BOARD_SIZE - row_id,
    {
        let mut row: Vec<Option<u32>> = Vec::new();
        let mut tile_id: u8 = 0;
        while tile_id < BOARD_SIZE
            invariant
                0 < denominator,
                numerator <= denominator,
                tile_id <= BOARD_SIZE,
                row@.len() == tile_id,
                forall|c: int| 0 <= c < tile_id ==> {
                    &&& valid_draw(#[trigger] row@[c])
                    &&& numerator == 0 ==> row@[c] is None
                    &&& numerator == denominator ==> row@[c] is Some
                },
            decreases BOARD_SIZE - tile_id,
        {
            row.push(draw_tile(numerator, denominator));
            tile_id = tile_id + 1;
        }
        draws.push(row);
        row_id = row_id + 1;
    }
    let board = board_from_draws(&draws);
    proof {
        assert forall|r: int, c: int| 0 <= r < BOARD_SIZE && 0 <= c < BOARD_SIZE implies
            fresh_tile(#[trigger] rows(board@)[r][c], c, r) by {
            assert(rows(board@)[r][c] == spec_make_tile(c as u8, r as u8, draws@[r]@[c]));
            assert(valid_draw(draws@[r]@[c]));
        }
        assert forall|r: int, c: int| 0 <= r < BOARD_SIZE && 0 <= c < BOARD_SIZE implies
            (numerator == 0 ==> #[trigger] rows(board@)[r][c].tile_type == TileType::EMPTY)
            && (numerator == denominator ==> rows(board@)[r][c].tile_type != TileType::EMPTY) by {
            assert(rows(board@)[r][c] == spec_make_tile(c as u8, r as u8, draws@[r]@[c]));
            assert(valid_draw(draws@[r]@[c]));
        }
    }
    board
}


/// Why a dig request does not complete: the player stands off the board
/// (a panic on indexing), the tile's resources overflow the player's
/// points (a panic on the addition), or the tile is resourceful, where the
/// request takes the board's lock a second time while it still holds it
/// and never returns.
#[derive(PartialEq, Eq, Structural, Clone, Copy, Debug)]
pub enum DigFailure {
    OffBoard,
    PointsOverflow,
    BoardLocked,
}

/// What keeps a dig where the player stands from completing, checked in
/// that order; the board is indexed by the player's first coordinate
/// first.
pub open spec fn dig_failure(board: Seq<Seq<Tile>>, u: User) -> Option<DigFailure> {
    let x = u.position.0 as int;
    let y = u.position.1 as int;
    if !(x < board.len() && y < board[x].len()) {
        Some(DigFailure::OffBoard)
    } else {
        match board[x][y].tile_type {
            TileType::RESOURCEFUL(r) => if u.action_points + r > u32::MAX {
                Some(DigFailure::PointsOverflow)
            } else {
                Some(DigFailure::BoardLocked)
            },
            TileType::EMPTY => None,
        }
    }
}

/// The inputs on which a dig request completes: the player stands on an
/// empty tile of the board.
pub open spec fn dig_defined(board: Seq<Seq<Tile>>, u: User) -> bool {
    dig_failure(board, u) is None
}

/// Tells what keeps `dig_at` from completing on these inputs, if anything
/// (see `dig_failure`).
pub fn dig_blocker(board: &Vec<Vec<Tile>>, user: &User) -> (f: Option<DigFailure>)
    ensures
        f == dig_failure(rows(board@), *user),
{
    let x = user.position.0 as usize;
    let y = user.position.1 as usize;
    if x >= board.len() {
        return Some(DigFailure::OffBoard);
    }
    if y >= board[x].len() {
        return Some(DigFailure::OffBoard);
    }
    match board[x][y].tile_type {
        TileType::RESOURCEFUL(r) => if user.action_points as u64 + r as u64 > u32::MAX as u64 {
            Some(DigFailure::PointsOverflow)
        } else {
            Some(DigFailure::BoardLocked)
        },
        TileType::EMPTY => None,
    }
}

/// Answers a dig request where the player stands. The only dig requests
/// that complete are those on an empty tile, and they are refused with
/// "Cannot dig here"; neither the board nor the player changes. A request
/// on a resourceful tile never completes (see `DigFailure`), and
/// `requires` leaves it out.
pub fn dig_at(board: &Vec<Vec<Tile>>, user: &User) -> (r: Result<(), Rejection>)
    requires
        dig_defined(rows(board@), *user),
    ensures
        r == Err::<(), Rejection>(bad_request(GameError::CannotDigHere)),
{
    let x = user.position.0 as usize;
    let y = user.position.1 as usize;
    proof {
        assert(rows(board@)[x as int] == board@[x as int]@);
    }
    let tile = board[x][y];
    assert(tile.tile_type == TileType::EMPTY);
    Err(Rejection { status: Status::BadRequest, error: GameError::CannotDigHere })
}


/// A draw decides its tile alone: the tile sits at its own (column, row),
/// it is empty exactly when nothing was drawn, and otherwise it holds the
/// drawn amount.
pub proof fn drawn_tile_content(col: u8, row: u8, d: Option<u32>)
    ensures
        spec_make_tile(col, row, d).position.0 == col,
        spec_make_tile(col, row, d).position.1 == row,
        (spec_make_tile(col, row, d).tile_type == TileType::EMPTY) <==> d is None,
        forall|x: u32| d == Some(x) ==> #[trigger] spec_make_tile(col, row, d).tile_type
            == TileType::RESOURCEFUL(x),
{
}

/// A dig request completes exactly when the player stands on the board,
/// indexed by the first coordinate first, on an empty tile.
pub proof fn dig_law(board: Seq<Seq<Tile>>, u: User)
    ensures
        dig_defined(board, u) <==> ({
            let x = u.position.0 as int;
            let y = u.position.1 as int;
            x < board.len() && y < board[x].len() && board[x][y].tile_type == TileType::EMPTY
        }),
{
}

} // verus!
