//! A registry of native media-engine objects behind opaque handles.
//!
//! A managed host cannot hold native pointers, so every configuration,
//! registry, media engine, API instance and peer connection lives in one
//! table and is referred to by a [`handle::Handle`]. This crate is the
//! sequential core of that table: handle allocation, registration, lookup by
//! handle and kind, configuration validation and the constructors that walk
//! the dependency chain. Each operation carries a contract that Verus proves.
//!
//! The embedding that shares one [`state::State`] between host threads puts
//! it behind a lock; every operation here is then one atomic step.

pub mod handle;
pub mod ice_url;
pub mod error;
pub mod config;
pub mod table;
pub mod state;
pub mod laws;
