//! Wake-on-LAN device management.
//!
//! The library holds what the service decides and computes, and leaves
//! sockets, files and processes to its caller:
//!
//! - `mac`: the notation of MAC addresses and its decoder;
//! - `models`: the device record;
//! - `wol`: the magic packet and the datagram that wakes a device;
//! - `storage`: the ordered list of devices;
//! - `arp`: the search of the ARP table's text, and the steps of a lookup;
//! - `api`: what each request turns into;
//! - `error`: the errors and their classes;
//! - `config`, `cli`: the configuration's defaults and the command line's
//!   commands;
//! - `text`: helpers on strings.

pub mod api;
pub mod arp;
pub mod cli;
pub mod config;
pub mod error;
pub mod mac;
pub mod models;
pub mod storage;
pub mod text;
pub mod wol;
