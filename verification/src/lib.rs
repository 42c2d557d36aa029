//! Mancala: the rules of the board game and the state machines of its
//! terminal screens.
pub mod game;
pub mod game_laws;
pub mod sowing;
pub mod cursor;
pub mod keys;
pub mod stones;
pub mod theme;
pub mod decimal;
pub mod widgets;
pub mod bindings;
pub mod app;
pub mod screen;
pub mod text;
pub mod view;
