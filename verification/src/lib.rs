//! Transport core for an industrial device gateway: serial-link lifecycle,
//! acknowledgement-aware write fan-out, and the registry that routes logical
//! names to groups of redundant physical links, together with the small pure
//! utilities (BCD conversion, register decoding, device-path parsing) that the
//! surrounding services share.

pub mod bcd;
pub mod camera;
pub mod config;
pub mod db;
pub mod group;
pub mod i2c;
pub mod link;
pub mod modbus;
pub mod mqtt;
pub mod port;
pub mod registry;
pub mod text;
pub mod web;
