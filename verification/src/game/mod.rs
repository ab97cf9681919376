pub mod input_click;
pub mod node_type;
pub mod resources;
pub mod state;
pub mod tiles;
pub mod types;

pub use node_type::NodeType;
pub use resources::Game;
pub use state::GameState;
pub use types::ToolType;
