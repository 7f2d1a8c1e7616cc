pub mod agent;
pub mod device;
pub mod geometry;
pub mod keys;
pub mod listing;
pub mod seat;
pub mod text;
