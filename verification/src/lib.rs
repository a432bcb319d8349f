//! The decisions, formats and bookkeeping of the Breeze desktop host: what its commands
//! answer, what its menu bar shows, how it journals break outcomes and labels its surfaces.
pub mod apps;
pub mod calendar;
pub mod cycle;
pub mod domain;
pub mod dto;
pub mod journal;
pub mod ledger;
pub mod local_time;
pub mod monitor;
pub mod overlay;
pub mod panel;
pub mod ports;
pub mod presentation;
pub mod settings;
pub mod startup;
pub mod text;
pub mod ticker;
pub mod tray;
pub mod windows;
