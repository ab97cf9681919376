pub mod camera;
pub mod game;
pub mod ui;
