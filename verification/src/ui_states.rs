//! Plain state carried by the user-facing screens.

pub mod debuging_game;
pub mod starting_menu;
