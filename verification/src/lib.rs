pub mod checkpoints;
pub mod config;
pub mod geometry;
pub mod nav;
pub mod pod;
