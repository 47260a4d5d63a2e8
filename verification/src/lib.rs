//! Firmware logic for the Tiliqua SID synthesizer and SID player bitstreams.
pub mod mbsid;
pub mod outside;
pub mod sid_player;
pub mod sid_player_sw;
