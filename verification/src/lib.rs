//! Verified core of the Echover audiobook player.
pub mod action;
pub mod atlas;
pub mod captions;
pub mod browse;
pub mod controller;
pub mod data;
pub mod gpu;
pub mod hit;
pub mod icons;
pub mod ingest;
pub mod nav;
pub mod paths;
pub mod playback;
pub mod player;
pub mod records;
pub mod scanner;
pub mod state;
pub mod text;
