//! Rules core of a top-down 2D action game.
//!
//! The game itself runs on an entity-component engine; this crate holds the
//! part of it that is plain logic: the session state machine, countdown and
//! interval timers, NPC targeting, projectile lifecycle and collision-driven
//! damage resolution, health regeneration, and the spawn planning for the
//! world and its NPC population.
//!
//! All quantities are integers, under fixed conventions:
//! - distances, positions and extents are in milli-units
//!   (one world unit is 1000);
//! - durations are in milliseconds;
//! - health, damage and regeneration are in milli-points
//!   (one health point is 1000);
//! - speeds are in milli-units per second;
//! - difficulty is in ten-thousandths;
//! - the components of a unit direction vector are in thousandths.

pub mod animation;
pub mod asset;
pub mod character;
pub mod combat;
pub mod healthbar;
pub mod npc;
pub mod player;
pub mod rng;
pub mod state;
pub mod timer;
pub mod ui;
pub mod units;
pub mod world;
