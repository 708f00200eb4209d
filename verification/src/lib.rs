//! A Conway's Game of Life engine on a fixed toroidal grid, together with a
//! static overlay table that maps rectangular grid regions to a display style
//! and a hyperlink, and a pure projection from the grid to display-ready
//! (style, link) pairs.

pub mod cell;
pub mod engine;
pub mod grid;
pub mod overlay;
pub mod render;
