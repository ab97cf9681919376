pub mod lemmas;
pub mod movement;
pub mod state;
pub mod systems;

pub use state::CamControl;
pub use state::CamState;
