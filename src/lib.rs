//! Coordination logic of a tracker-to-chat bridge: key layout of the shared
//! store, the semantics of its atomic scripts, timestamp-guarded stream appends,
//! the bot update leaser, the live-location message protocol, the battery
//! notifier and the heartbeat pacer.

pub mod text;
pub mod fields;
pub mod keys;
pub mod scripts;

pub mod models;
pub mod methods;

pub mod auth;
pub mod ingest;

pub mod battery;
pub mod live_location;
pub mod listener;

pub mod bot;
pub mod leaser;
pub mod heartbeat;

pub mod config;
pub mod middleware;
