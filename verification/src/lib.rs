//! A minimal entity-component state machine for a grid-based game world.
//!
//! Two component records exist: a movable [`player::Player`] agent and a
//! [`tile::Tile`] holding a 10 by 10 occupancy grid. Three system functions
//! apply deterministic transitions to a single component record: movement
//! with directional facing and a variable step size, identity and alive-flag
//! update, and grid-cell mutation. Each system decodes an opaque byte buffer
//! into its own typed argument record, then computes the new component state
//! purely from the old state and the decoded arguments. Persistence of the
//! returned record is the hosting caller's responsibility; no system performs
//! I/O itself.

pub mod codec;
pub mod errors;
pub mod identity;
pub mod player;
pub mod system_movement;
pub mod tile;
pub mod update_player;
pub mod update_tile;
