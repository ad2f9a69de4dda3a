//! An artificial-life simulation engine in exact fixed-point arithmetic.
//!
//! Organisms steered by a linear genome move through a walled arena, eat,
//! age, breed and die. Every rule of that world is stated as a contract
//! and proved.
//!
//! - `fixed`, `geometry`: numbers, vectors and headings.
//! - `genome`: the genes, what they answer to the senses, and how they mutate.
//! - `arena`: the bounds, the walls, and the test for the side of a contact.
//! - `config`, `clock`: the settings and the timers of the slower rules.
//! - `entity`: organisms, food and marks, and what one tick does to one record.
//! - `senses`: what an organism senses and how it acts on it.
//! - `stages`, `collisions`, `growth`: each rule applied to the whole registry.
//! - `world`: the registry and the tick that orders the rules.
//! - `render`: what the world shows to whoever paints it.
//! - `chance`: the seedable generator from which every draw comes.
//! - `registry`: sequences from which a rule drops some records and rewrites the rest.

pub mod arena;
pub mod chance;
pub mod clock;
pub mod collisions;
pub mod config;
pub mod entity;
pub mod fixed;
pub mod genome;
pub mod geometry;
pub mod growth;
pub mod registry;
pub mod render;
pub mod senses;
pub mod stages;
pub mod world;
