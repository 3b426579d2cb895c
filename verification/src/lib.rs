//! A CSS-like box-layout computation core: geometry primitives, resolved
//! style values, leaf sizing, hidden-subtree layout, a per-node result
//! cache, and the grid track-sizing algorithm, all with verified contracts.

pub mod unit;
pub mod geometry;
pub mod style;
pub mod layout;
pub mod measure;
pub mod cache;
pub mod tree;
pub mod compute;
pub mod grid_track;
pub mod track_sizing;
pub mod leaf;
