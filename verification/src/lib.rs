//! Verified core of the phone backup command line and desktop front ends.

pub mod text;
pub mod ordering;
pub mod cli;
pub mod display;
pub mod options;
pub mod files;
pub mod device;
pub mod cloud;
pub mod kit;
pub mod snapshots;
pub mod whatsapp;
pub mod audit;
pub mod observer;
pub mod tally;
pub mod laws;
pub mod wifi;
pub mod desktop;
pub mod keywords;
