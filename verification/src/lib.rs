use vstd::prelude::*;

pub mod collector;
pub mod cpu;
pub mod db;
pub mod hash;
pub mod logging;
pub mod mqtt;
pub mod net;
pub mod processes;
pub mod purge;
pub mod sensors;
pub mod tcp;
pub mod text;
pub mod types;
pub mod units;
