//! Streaming of an unbounded voxel world around a moving observer.
//!
//! The world is a lattice of cubic sectors. A generation worker scans the
//! sectors around the observer and generates those that the consumer lacks;
//! the consumer caches them near the observer, has a sector meshed once its
//! six neighbours are there, and evicts what falls out of reach.
//!
//! The crate holds the decisions of both sides and proves what it states of
//! them. It does no outside work: threads, channels, clocks, the generator
//! and the mesher belong to whoever drives it.
//!
//! - `block`, `coords`, `grid`: the voxels of one sector.
//! - `lattice`, `sector`: the sectors and their places in the world.
//! - `message`: what the worker and the consumer tell each other.
//! - `movement`: the directions in which the observer is moved.
//! - `scan`, `worker`: the worker's scan order and its cycle.
//! - `cache`: the consumer's sector cache.
//! - `stream`: what holds of every run of the cache.

pub mod block;
pub mod cache;
pub mod coords;
pub mod grid;
pub mod lattice;
pub mod message;
pub mod movement;
pub mod scan;
pub mod sector;
pub mod stream;
pub mod worker;
