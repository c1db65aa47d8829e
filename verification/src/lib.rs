//! Typed message transport between a game client and a game server: the wire
//! framing, the receive state machine, the failure taxonomy and the decisions
//! taken by the connection and listener workers, together with the proofs of
//! what they guarantee. Beside it stand the identifiers that both sides use
//! for entities, and the state of the chat window that shows what the
//! transport delivers.

pub mod comp;
pub mod hud;
pub mod net;
