//! Composition of cluster configuration documents and planning of the key
//! material they refer to.

pub mod asset;
pub mod cell;
pub mod generator;
pub mod keystore;
pub mod mixin;
pub mod paths;
pub mod pipeline;
pub mod provision;
pub mod spec_builder;
pub mod text;
pub mod tla;
pub mod value;
