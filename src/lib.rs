//! Client-side core of a remote game-streaming appliance: the controller
//! input codec, the relay session multiplexer, session negotiation and the
//! small state machines that drive them.

pub mod backend;
pub mod frame;
pub mod negotiate;
pub mod provision;
pub mod supervisor;
pub mod table;
pub mod transport;
pub mod wire;

pub use backend::{AssignVulcastToRelay, LogInAsVulcast, Opts};
pub use frame::{ControllerFields, InputError, NetworkControllerState};
pub use negotiate::{Negotiation, NegotiationAction, NegotiationError, NegotiationEvent, RelayAssignment};
pub use provision::{FfmpegStreamer, GStreamer, PlainTransportOptions, TransportProtocol, TransportTuple};
pub use supervisor::{Supervisor, SupervisorAction, SupervisorEvent};
pub use table::{ControllerError, Controllers, LastStateTable, SinkOp};
pub use transport::{Dispatch, RelaySession, ServerMessage, TransportError};
