//! WebSocket connections over several transports: the message model, the
//! SOCKS5 handshake, the registry of anonymity-network clients, and the
//! decisions that an attempt to connect is made of.
//!
//! Nothing here opens a socket or waits for one. The state machines say
//! what is to be done and are told what happened.

pub mod attempt;
pub mod engine;
pub mod error;
pub mod message;
pub mod mode;
pub mod socks;
pub mod target;
pub mod tor;

pub use attempt::{Action, Attempt, Event, Stage};
pub use error::{Error, SocksError};
pub use message::{CloseFrame, CloseFrameView, Message, MessageView};
pub use mode::{ConnectionMode, ConnectionModeView, SocketAddress};
pub use target::{Route, RouteView, Target, TargetView};
