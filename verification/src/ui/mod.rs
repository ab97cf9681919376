pub mod game_over;
pub mod hotbar_input;
pub mod hotbar_style;
pub mod hud;
pub mod interaction;
pub mod setup_menu;
pub mod systems;

pub use interaction::Interaction;
