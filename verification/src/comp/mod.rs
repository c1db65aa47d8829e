//! Components shared by client and server.

pub mod uid;
