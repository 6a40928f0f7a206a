//! One resolution rule per actor kind, plus the cross-cutting phases
//! (damage flush, shooting, player interaction, tick bookkeeping). The
//! resolvers run in a fixed order once per keyframe tick; the scheduler
//! holds that order.

pub mod activate_capsule;
pub mod bears;
pub mod birds;
pub mod blasters;
pub mod bullets;
pub mod damage;
pub mod eyes;
pub mod force_field;
pub mod game_events;
pub mod lasers;
pub mod magnetic_field;
pub mod push_boxes;
pub mod reload_level;
pub mod robbo_move;
pub mod shots;
pub mod ticks;
pub mod utils;
