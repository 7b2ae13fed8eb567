//! Planning and bookkeeping for pregenerating the chunks of a Minecraft world
//! in growing square rings around the origin.

pub mod commands;
pub mod config;
pub mod console;
pub mod controller;
pub mod dimensions;
pub mod generate;
pub mod lines;
pub mod lock;
pub mod logging;
pub mod run;
pub mod startup;
pub mod state;
pub mod steps;
pub mod text;
pub mod walk;
