//! Core logic of the Enchantron game: integer geometry, the world service
//! that tracks entities on the tile grid behind a spatial index, entity
//! bookkeeping, touch events, shared handles, PNG encoding and the
//! rendering descriptions used when generating native bindings.

pub mod binding;
pub mod direction;
pub mod entity;
pub mod entity_table;
pub mod event;
pub mod handles;
pub mod location_index;
pub mod model;
pub mod png_generator;
pub mod presenter_service;
pub mod saved_game;
pub mod spatial;
pub mod terrain;
pub mod window_index;
pub mod world_service;
