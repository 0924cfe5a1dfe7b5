//! Verified core logic of a pressure self-writer: the block storage model,
//! the settings protocol and the bit-level helpers of its peripherals.

pub mod app_settings;
pub mod main_data_storage;
pub mod protobuf;
pub mod flash_settings;
pub mod qspi;
pub mod scsi;
pub mod workmodes;
pub mod output_provider;
pub mod qspi_storage;
pub mod clocking;
pub mod self_writer;
pub mod laws;
pub mod bench;
pub mod value_laws;
