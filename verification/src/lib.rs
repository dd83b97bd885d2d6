//! The decision core of an MQTT uplink: what is sent, stored, dropped and reported, and when.
//!
//! Channels, sockets, timers and files belong to the program around this library. It hands over
//! what happened, and is told what to do next.

pub mod codec;
pub mod config;
pub mod console;
pub mod package;
pub mod packet;
pub mod serializer;
pub mod stream;
pub mod tcpjson;
pub mod text;
pub mod uplink;
pub mod values;
