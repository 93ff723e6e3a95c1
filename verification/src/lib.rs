//! The decisions behind a desktop widget that watches Codex rate limits.

use vstd::prelude::*;

pub mod click_through;
pub mod desk;
pub mod drag;
pub mod events;
pub mod json;
pub mod launch;
pub mod launcher;
pub mod layout;
pub mod orb;
pub mod paths;
pub mod pixels;
pub mod placement;
pub mod proxy;
pub mod query;
pub mod reading;
pub mod state;
pub mod text;
pub mod usage;
pub mod writer;
