use vstd::prelude::*;
use crate::game::node_type::NodeType;

verus! {

/// What the board knows of one tile. `E` is the host's handle for a
/// spawned object; the board stores and hands back handles without looking
/// inside them.
#[derive(Clone, Copy, Debug, PartialEq)]
pub struct TileData<E> {
    /// The tile itself.
    pub tile_entity: E,
    /// The node standing on the tile, if any.
    pub node_entity: Option<E>,
}

/// The board and the player's current selection.
///
/// The board is stored row by row: `board[z][x]` is the tile at column
/// `x` of row `z`.
pub struct Game<E> {
    pub board: Vec<Vec<TileData<E>>>,
    pub board_size_x: usize,
    pub board_size_z: usize,
    pub hotbar_selection: NodeType,
}

/// A grid of `size_z` rows with `size_x` entries each.
pub open spec fn spec_is_grid<T>(rows: Seq<Vec<T>>, size_x: int, size_z: int) -> bool {
    &&& rows.len() == size_z
    &&& forall|z: int| 0 <= z < rows.len() ==> (#[trigger] rows[z])@.len() == size_x
}

impl<E> Game<E> {
    /// The board has `board_size_z` rows of `board_size_x` tiles each.
    pub open spec fn wf(&self) -> bool {
        spec_is_grid(self.board@, self.board_size_x as int, self.board_size_z as int)
    }

    /// The tile at column `x` of row `z`.
    pub open spec fn spec_tile(&self, x: int, z: int) -> TileData<E> {
        self.board@[z]@[x]
    }

    /// The board before any tile was laid: no rows, no columns, and the
    /// eraser selected.
    pub fn new() -> (r: Self)
        ensures
            r.wf(),
            r.board_size_x == 0,
            r.board_size_z == 0,
            r.board@.len() == 0,
            r.hotbar_selection == NodeType::Empty,
    {
        Game {
            board: Vec::new(),
            board_size_x: 0,
            board_size_z: 0,
            hotbar_selection: NodeType::Empty,
        }
    }
}

impl<E: Copy> Game<E> {
    /// Lays the board over freshly spawned tiles: `tiles[z][x]` is the
    /// handle of the tile at column `x` of row `z`. Every tile starts
    /// without a node. The selection is kept.
    pub fn setup_board(&mut self, size_x: usize, tiles: &Vec<Vec<E>>)
        requires
            spec_is_grid(tiles@, size_x as int, tiles@.len() as int),
        ensures
            final(self).wf(),
            final(self).board_size_x == size_x,
            final(self).board_size_z == tiles@.len(),
            final(self).hotbar_selection == old(self).hotbar_selection,
            forall|x: int, z: int|
                0 <= z < tiles@.len() && 0 <= x < size_x ==> {
                    &&& (#[trigger] final(self).spec_tile(x, z)).tile_entity == tiles@[z]@[x]
                    &&& final(self).spec_tile(x, z).node_entity.is_none()
                },
    {
        let mut board: Vec<Vec<TileData<E>>> = Vec::new();
        let mut z: usize = 0;
        while z < tiles.len()
            invariant
                z <= tiles@.len(),
                spec_is_grid(tiles@, size_x as int, tiles@.len() as int),
                board@.len() == z,
                forall|k: int| 0 <= k < z ==> (#[trigger] board@[k])@.len() == size_x,
                forall|k: int, x: int|
                    0 <= k < z && 0 <= x < size_x ==> {
                        &&& (#[trigger] board@[k]@[x]).tile_entity == tiles@[k]@[x]
                        &&& board@[k]@[x].node_entity.is_none()
                    },
            decreases tiles@.len() - z,
        {
            let mut row: Vec<TileData<E>> = Vec::new();
            let mut x: usize = 0;
            while x < size_x
                invariant
                    x <= size_x,
                    z < tiles@.len(),
                    tiles@[z as int]@.len() == size_x,
                    row@.len() == x,
                    forall|k: int|
                        0 <= k < x ==> {
                            &&& (#[trigger] row@[k]).tile_entity == tiles@[z as int]@[k]
                            &&& row@[k].node_entity.is_none()
                        },
                decreases size_x - x,
            {
                row.push(TileData { tile_entity: tiles[z][x], node_entity: None });
                x += 1;
            }
            board.push(row);
            z += 1;
        }
        self.board = board;
        self.board_size_x = size_x;
        self.board_size_z = tiles.len();
    }
}

} // verus!
