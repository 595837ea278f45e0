//! A frame-driven combat simulation: a player's unit, a stationary target,
//! a swarm of enemies and the projectiles between them.
//!
//! The simulation counts in fixed-point integers, millionths of a unit, of
//! a degree, of a second and of a hit point, so that every tick is exact
//! and every contract speaks of integers. It measures no angle itself: where
//! a tick needs an arctangent, a sine or a cosine, the scene says of what,
//! and the caller hands the measure in.
//!
//! One tick of a `scene::Scene`:
//!
//! 1. If `channel_due`, write `set_parameters_to_url_query` to the command
//!    channel and read the channel.
//! 2. Answer `bearing_queries` with arctangents.
//! 3. Answer `heading_queries` with sines and cosines.
//! 4. Call `update` with the answers, and play the sounds it returns.

pub mod angle;
pub mod channel;
pub mod command;
pub mod cue;
pub mod fixed;
pub mod geometry;
pub mod scene;
pub mod units;
