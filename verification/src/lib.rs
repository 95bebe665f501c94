//! State-update core of an incremental "clicker" game.
//!
//! The player accrues a currency ("kudos") by uploading stories and by
//! buying passive modifiers ("tags") and stackable items ("upgrades").
//! All currency amounts are kept in *tenths* of a kudo, so that the
//! bonus formulas (which come in steps of one tenth) stay exact
//! integers; item prices in the catalogs are written in whole kudos.
//!
//! The crate holds only the deterministic state machine: reward
//! calculation, purchases, toggles, the automation tick and the
//! shop-gating rules. Rendering and the timer live outside and talk to
//! [`state::GameState`] through [`state::Message`] intents and the
//! read-only query surface.

pub mod items;
pub mod laws;
pub mod rewards;
pub mod state;
