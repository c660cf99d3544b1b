pub mod game;
pub mod tachi;
