//! Hexagonal-grid addressing and deterministic world generation.
//!
//! Tiles of the world sit on a hex grid addressed by cube coordinates
//! ([`hex::GridVec`]). A registry ([`registry::TileRegistry`]) records
//! which tile occupies each cell. The generator ([`generation`]) lays out
//! biome clusters from a seeded generator ([`rng::EarthRng`]), so that one
//! seed always gives one map, and the seed can be saved as text
//! ([`seed`]). Objects are scattered over a tile under an attempt budget
//! ([`scatter`]), and console commands are read by [`command`].
pub mod command;
pub mod generation;
pub mod hex;
pub mod registry;
pub mod rng;
pub mod scatter;
pub mod seed;
pub mod subdivision;
pub mod text;

pub use generation::{AddCity, AddForest, Biome, BiomeCluster, Generation, TileRequest, WorldGenerator};
pub use hex::{CubeCoordinatesInvalid, FractionalAxial, GridVec};
pub use registry::{TileOccupied, TileRegistry};
pub use rng::{EarthRng, LastGenerationSeed};
pub use scatter::{ScatterPass, MAX_SPAWN_ATTEMPTS};
pub use subdivision::{check_subdivisions, num_tris_ok, SubdivisionError, MAX_MESH_RES};
