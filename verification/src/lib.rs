//! Window embedding core: the verified decision logic of a desktop "window
//! hub" that embeds foreign top-level windows as child panes of a host frame.
//!
//! The library is pure: it classifies candidate windows, keeps the registry of
//! saved original states, and turns each command (embed, release, update the
//! geometry, activate, hide, show, close) into a plan of window-manager
//! actions. A thin front end executes those plans against the operating
//! system and feeds observed window facts back in.

pub mod action;
pub mod classify;
pub mod engine;
pub mod filter;
pub mod geom;
pub mod laws;
pub mod registry;
pub mod style;
pub mod text;
