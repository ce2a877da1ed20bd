//! An event bus bridged to one websocket connection: frames carry an event
//! code and a payload, and each code is bound to at most one handler.
pub mod codec;
pub mod decimal;
pub mod error;
pub mod registry;
pub mod session;

pub use codec::{decode, encode, WebsocketMessage};
pub use decimal::{format_code, parse_code_text};
pub use error::GamerError;
pub use registry::{Event, EventRunner, Gamer, MessageCode, Store};
pub use session::{Inbound, Outbound, Session, SessionState, HEARTBEAT_INTERVAL};
