//! Terrain height-field and picking logic of a small 3D engine, with the
//! plain-data types that the renderer hands around.
//!
//! - `png_loader`: a decoded heightmap and its packed RGB colours.
//! - `terrain_grid`: a terrain tile's grid of height samples, its triangle
//!   index list, and which grid vertices a height query or a normal reads.
//! - `ray_search`: the decisions of the search for the terrain point under
//!   the mouse cursor.
//! - `obj_parse`: the line kinds and face vertices of Wavefront OBJ models.
//! - `raw_model`, `textures`, `teclado`: handles of meshes and textures on
//!   the graphics card, decoded texture pixels, and the pressed keys.
pub mod obj_parse;
pub mod png_loader;
pub mod ray_search;
pub mod raw_model;
pub mod teclado;
pub mod terrain_grid;
pub mod textures;
