//! GPU context negotiation, the terrain pipeline's description and state, and
//! the sector/chunk entity model of a terrain renderer.

pub mod chunk;
pub mod context;
pub mod negotiator;
pub mod pipeline;
pub mod sector;
pub mod store;
pub mod terrain;
