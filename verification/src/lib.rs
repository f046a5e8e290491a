//! Verified core of an OpenDeck dial that steps through power-profiles-daemon's
//! three profiles and renders the active one on the dial's touch strip.
pub mod decision;
pub mod icons;
pub mod format;
pub mod registry;
pub mod action;
pub mod watch;
pub mod laws;
