//! Length-prefixed message transport over a stream socket.

pub mod channel;
pub mod data;
pub mod error;
pub mod frame;
pub mod post;
pub mod postbox;
pub mod postoffice;
pub mod recv;
pub mod worker;
