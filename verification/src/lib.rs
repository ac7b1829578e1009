//! A managed client for one persistent WebSocket connection, written as a
//! state machine: every operation and every transport event takes the client
//! from one state to the next and says what the caller has to do on the wire.

pub mod client;
pub mod effects;
pub mod frame;
pub mod laws;
pub mod manager;
pub mod model;
pub mod status;
pub mod task;

pub use client::WsClient;
pub use effects::Effects;
pub use frame::{Frame, FrameView, SendFailure, KEEPALIVE_INTERVAL};
pub use manager::WsManager;
pub use model::{ClientState, Event, EffectsView};
pub use status::{ConnectionStatus, StatusCallback, StatusSlot};
pub use task::TaskItem;
