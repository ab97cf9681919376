use vstd::prelude::*;
use crate::camera::state::CamState;
use crate::game::node_type::NodeType;
use crate::game::resources::Game;
use crate::game::resources::TileData;
use crate::ui::interaction::spec_any_engaged;
use crate::ui::interaction::any_engaged;
use crate::ui::interaction::Interaction;

verus! {

/// The board tile that a world position, rounded to whole tiles, falls
/// on: `tile_x` and `tile_z` are the rounded coordinates.
pub open spec fn spec_world_pos_to_tile(tile_x: int, tile_z: int, size_x: int, size_z: int)
    -> Option<(usize, usize)> {
    if 0 <= tile_x < size_x && 0 <= tile_z < size_z {
        Some((tile_x as usize, tile_z as usize))
    } else {
        None
    }
}

pub fn world_pos_to_tile(tile_x: i32, tile_z: i32, size_x: usize, size_z: usize) -> (r: Option<
    (usize, usize),
>)
    ensures
        r == spec_world_pos_to_tile(tile_x as int, tile_z as int, size_x as int, size_z as int),
{
    if tile_x < 0 || tile_z < 0 {
        return None;
    }
    let x: usize = tile_x as usize;
    let z: usize = tile_z as usize;
    if x >= size_x || z >= size_z {
        return None;
    }
    Some((x, z))
}

/// A click on the board is ignored while the pointer engages a widget,
/// and while the camera navigates: in free mode, or with the pan button
/// held.
pub open spec fn spec_should_skip_click(
    widgets: Seq<Interaction>,
    cam_state: CamState,
    pan_held: bool,
) -> bool {
    spec_any_engaged(widgets) || cam_state == CamState::Free || pan_held
}

pub fn should_skip_click(widgets: &Vec<Interaction>, cam_state: CamState, pan_held: bool) -> (r:
    bool)
    ensures
        r == spec_should_skip_click(widgets@, cam_state, pan_held),
{
    if any_engaged(widgets) {
        return true;
    }
    if cam_state == CamState::Free || pan_held {
        return true;
    }
    false
}

/// What the host has to do after a click on a tile.
#[derive(Clone, Copy, Debug, PartialEq)]
pub enum Placement<E> {
    /// Nothing.
    Keep,
    /// Despawn this node; the board has already forgotten it.
    Remove(E),
    /// Spawn a node of this type on the tile and report its handle with
    /// [`Game::node_spawned`].
    Spawn(NodeType),
}

impl<E: Copy> Game<E> {
    /// The outcome of a click on the tile at column `x` of row `z`.
    ///
    /// The eraser removes the node of an occupied tile and leaves an empty
    /// tile alone. Any other selection is spawned on an empty tile and
    /// leaves an occupied tile alone.
    pub open spec fn spec_place_node(&self, x: int, z: int) -> Placement<E> {
        match self.spec_tile(x, z).node_entity {
            Some(node) => if self.hotbar_selection == NodeType::Empty {
                Placement::Remove(node)
            } else {
                Placement::Keep
            },
            None => if self.hotbar_selection == NodeType::Empty {
                Placement::Keep
            } else {
                Placement::Spawn(self.hotbar_selection)
            },
        }
    }

    /// The board with the node entry of the tile at column `x` of row `z`
    /// replaced by `node`, as a grid of tiles.
    pub open spec fn spec_with_node(&self, x: int, z: int, node: Option<E>) -> Seq<
        Seq<TileData<E>>,
    > {
        Seq::new(
            self.board@.len(),
            |r: int|
                Seq::new(
                    self.board@[r]@.len(),
                    |c: int|
                        if r == z && c == x {
                            TileData { tile_entity: self.board@[r]@[c].tile_entity, node_entity: node }
                        } else {
                            self.board@[r]@[c]
                        },
                ),
        )
    }

    /// The board as a grid of tiles.
    pub open spec fn spec_grid(&self) -> Seq<Seq<TileData<E>>> {
        Seq::new(self.board@.len(), |r: int| self.board@[r]@)
    }

    /// Applies a click to the tile at column `x` of row `z` and says what
    /// the host has to do.
    pub fn place_node(&mut self, x: usize, z: usize) -> (r: Placement<E>)
        requires
            old(self).wf(),
            x < old(self).board_size_x,
            z < old(self).board_size_z,
        ensures
            r == old(self).spec_place_node(x as int, z as int),
            final(self).wf(),
            final(self).board_size_x == old(self).board_size_x,
            final(self).board_size_z == old(self).board_size_z,
            final(self).hotbar_selection == old(self).hotbar_selection,
            r is Remove ==> final(self).spec_grid() == old(self).spec_with_node(
                x as int,
                z as int,
                None,
            ),
            !(r is Remove) ==> final(self).spec_grid() == old(self).spec_grid(),
    {
        let selection = self.hotbar_selection;
        match self.board[z][x].node_entity {
            Some(node) => {
                if selection == NodeType::Empty {
                    self.set_node(x, z, None);
                    Placement::Remove(node)
                } else {
                    Placement::Keep
                }
            },
            None => {
                if selection == NodeType::Empty {
                    Placement::Keep
                } else {
                    Placement::Spawn(selection)
                }
            },
        }
    }

    /// The node that a click on the node at column `x` of row `z`
    /// removes: with the eraser selected, the node standing there; with
    /// any other selection, none.
    pub open spec fn spec_node_click(&self, x: int, z: int) -> Option<E> {
        if self.hotbar_selection == NodeType::Empty {
            self.spec_tile(x, z).node_entity
        } else {
            None
        }
    }

    /// Applies a click on the node at column `x` of row `z`, and returns
    /// the node that the host has to despawn, if any; the board has then
    /// already forgotten it.
    pub fn node_click(&mut self, x: usize, z: usize) -> (r: Option<E>)
        requires
            old(self).wf(),
            x < old(self).board_size_x,
            z < old(self).board_size_z,
        ensures
            r == old(self).spec_node_click(x as int, z as int),
            final(self).wf(),
            final(self).board_size_x == old(self).board_size_x,
            final(self).board_size_z == old(self).board_size_z,
            final(self).hotbar_selection == old(self).hotbar_selection,
            r.is_some() ==> final(self).spec_grid() == old(self).spec_with_node(
                x as int,
                z as int,
                None,
            ),
            r.is_none() ==> final(self).spec_grid() == old(self).spec_grid(),
    {
        if self.hotbar_selection != NodeType::Empty {
            return None;
        }
        match self.board[z][x].node_entity {
            Some(node) => {
                self.set_node(x, z, None);
                Some(node)
            },
            None => None,
        }
    }

    /// Replaces the node entry of the tile at column `x` of row `z`: with
    /// the handle of a node that the host spawned there, or with `None`
    /// where nothing stands on the tile.
    pub fn set_node(&mut self, x: usize, z: usize, node: Option<E>)
        requires
            old(self).wf(),
            x < old(self).board_size_x,
            z < old(self).board_size_z,
        ensures
            final(self).wf(),
            final(self).board_size_x == old(self).board_size_x,
            final(self).board_size_z == old(self).board_size_z,
            final(self).hotbar_selection == old(self).hotbar_selection,
            final(self).spec_grid() == old(self).spec_with_node(x as int, z as int, node),
    {
        self.board[z][x].node_entity = node;
        assert(final(self).spec_grid() =~~= old(self).spec_with_node(x as int, z as int, node));
    }
}

/// On an occupied tile only the eraser acts, and on an empty tile only
/// the other selections do; whatever the click, a node is never spawned
/// on a tile that already carries one.
pub proof fn lemma_place_respects_occupancy<E: Copy>(game: Game<E>, x: int, z: int)
    ensures
        game.spec_tile(x, z).node_entity.is_some() ==> !(game.spec_place_node(x, z) is Spawn),
        game.spec_tile(x, z).node_entity.is_none() ==> !(game.spec_place_node(x, z) is Remove),
        game.spec_place_node(x, z) is Remove <==> game.spec_tile(x, z).node_entity.is_some()
            && game.hotbar_selection == NodeType::Empty,
        game.spec_place_node(x, z) is Spawn <==> game.spec_tile(x, z).node_entity.is_none()
            && game.hotbar_selection != NodeType::Empty,
        game.spec_place_node(x, z) is Spawn ==> game.spec_place_node(x, z)
            == Placement::<E>::Spawn(game.hotbar_selection),
{
}

/// Erasing a node that was just recorded on an empty tile restores the
/// board: where `after` is `before` with `node` recorded at column `x` of
/// row `z`, a click there with the eraser removes exactly `node` and
/// leaves the grid as `before` had it.
pub proof fn lemma_erase_undoes_spawn<E: Copy>(
    before: Game<E>,
    after: Game<E>,
    x: int,
    z: int,
    node: E,
)
    requires
        before.wf(),
        0 <= x < before.board_size_x,
        0 <= z < before.board_size_z,
        before.spec_tile(x, z).node_entity.is_none(),
        after.spec_grid() == before.spec_with_node(x, z, Some(node)),
        after.hotbar_selection == NodeType::Empty,
    ensures
        after.spec_place_node(x, z) == Placement::Remove(node),
        after.spec_node_click(x, z) == Some(node),
        after.spec_with_node(x, z, None) == before.spec_grid(),
{
    let spawned = before.spec_with_node(x, z, Some(node));
    assert(spawned.len() == before.board@.len());
    assert forall|r: int| 0 <= r < after.board@.len() implies #[trigger] after.board@[r]@
        == spawned[r] by {
        assert(after.spec_grid()[r] == after.board@[r]@);
    }
    assert(after.spec_with_node(x, z, None) =~~= before.spec_grid());
}

} // verus!
