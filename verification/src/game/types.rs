use vstd::prelude::*;
use crate::game::node_type::NodeType;

verus! {

/// The tool that a click on the board applies.
#[derive(Clone, Copy, Debug, PartialEq, Eq, Structural)]
pub enum ToolType {
    Add(NodeType),
    Delete,
    Select,
    Link,
    Move,
}

impl Default for ToolType {
    /// A fresh session starts with the tool that adds the first placeable
    /// node type.
    fn default() -> (r: Self)
        ensures
            r == ToolType::Add(NodeType::Internet),
    {
        ToolType::Add(NodeType::Internet)
    }
}

impl ToolType {
    /// The node palette is of use only while the tool adds nodes.
    pub open spec fn spec_shows_palette(self) -> bool {
        self is Add
    }

    pub fn shows_palette(self) -> (r: bool)
        ensures
            r == self.spec_shows_palette(),
    {
        match self {
            ToolType::Add(_) => true,
            _ => false,
        }
    }
}

} // verus!
