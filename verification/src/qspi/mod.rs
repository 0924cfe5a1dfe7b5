pub mod config;
pub mod iqspi;
pub mod plan;
pub mod sequence;
pub mod abr;
pub mod pir;

pub mod types;
pub mod virtual_clk;
