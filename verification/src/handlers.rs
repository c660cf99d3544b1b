pub mod scores;
