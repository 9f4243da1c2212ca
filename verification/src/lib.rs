pub mod deck;
pub mod logic;
pub mod player;
pub mod ui;
pub mod vista;
