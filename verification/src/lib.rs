//! Combat rules of the Unbound yard: action codes, timings, loadouts,
//! skill levels, combat-event handling and the client-side prediction
//! decisions, stated over plain integers and proved.
pub mod action;
pub mod skills;
pub mod token;
pub mod timing;
pub mod loadout;
pub mod input;
pub mod prediction;
pub mod events;
pub mod world;
pub mod bot;
pub mod hud;
