//! Verified core logic of a glider vario front end: CAN bus framing and dispatch, NMEA
//! sentence buffering, pin and sound control, persistence identifiers and key handling.

pub mod le_bytes;
pub mod slices;
pub mod error;

pub mod can_frame;
pub mod model;
pub mod softkeys;
pub mod text;
pub mod input_pins;
pub mod hw_pins;
pub mod nmea_buffer;
pub mod nmea_command;
pub mod can_ids;
pub mod persist;
pub mod sound;
pub mod scheduler;
pub mod can_dispatcher;
pub mod can_wtr;
pub mod can_rdr;
pub mod sunset;
pub mod demo;
pub mod sw_update;
pub mod device_info;
pub mod clock;
pub mod basic_config;
pub mod horizon;
pub mod polar_index;
pub mod vario;
pub mod tick_1s;
pub mod menu;
