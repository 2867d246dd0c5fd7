//! Decision logic of the Codex usage overlay: message routing over a JSON
//! model, rate-limit normalization, reconnect backoff and window placement.

pub mod client;
pub mod connection;
pub mod json;
pub mod laws;
pub mod normalize;
pub mod overlay;
pub mod placement;
pub mod process;
pub mod protocol;
pub mod session;
pub mod supervisor;
pub mod text;
