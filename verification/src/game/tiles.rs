use vstd::prelude::*;
use crate::game::input_click::Placement;
use crate::game::types::ToolType;

verus! {

/// The outcome of applying `tool` to a tile that carries `node`.
///
/// The delete tool removes the node of an occupied tile; an add tool
/// spawns its node type on an empty tile; every other combination leaves
/// the tile as it is.
pub open spec fn spec_tile_click<E>(tool: ToolType, node: Option<E>) -> Placement<E> {
    match tool {
        ToolType::Delete => match node {
            Some(standing) => Placement::Remove(standing),
            None => Placement::Keep,
        },
        ToolType::Add(node_type) => match node {
            Some(_) => Placement::Keep,
            None => Placement::Spawn(node_type),
        },
        _ => Placement::Keep,
    }
}

pub fn tile_click<E: Copy>(tool: ToolType, node: Option<E>) -> (r: Placement<E>)
    ensures
        r == spec_tile_click(tool, node),
{
    match tool {
        ToolType::Delete => match node {
            Some(standing) => Placement::Remove(standing),
            None => Placement::Keep,
        },
        ToolType::Add(node_type) => match node {
            Some(_) => Placement::Keep,
            None => Placement::Spawn(node_type),
        },
        _ => Placement::Keep,
    }
}

} // verus!
