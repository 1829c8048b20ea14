//! Grid-navigation toolkit for tile-based simulations: A* pathfinding over an
//! abstract map, perimeter ray-cast field of view, and the integer line
//! rasterizer both depend on, together with the small console/palette value
//! types that surround them.

pub mod basemap;
pub mod color;
pub mod console;
pub mod fieldofview;
pub mod geometry;
pub mod lines;
pub mod named;
pub mod palette;
pub mod parsing;
pub mod pathfinding;
pub mod random;
pub mod simple_map;

pub use basemap::{Algorithm2D, BaseMap};
pub use color::{Rgb, Rgba};
pub use console::{TextAlign, Tile};
pub use fieldofview::field_of_view;
pub use geometry::{DistanceAlg, LineAlg, Point};
pub use lines::line2d;
pub use palette::{
    add_named_colors_to_palette, clear_palette, palette_color, register_palette_color, Palette,
};
pub use parsing::{parse_dice_string, DiceParseError};
pub use pathfinding::astar::{a_star_search, NavigationPath};
pub use random::{DiceType, RandomNumberGenerator};
pub use simple_map::SimpleMap;
