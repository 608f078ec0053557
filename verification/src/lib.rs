//! A directory of live game servers.
//!
//! Game servers announce themselves over a long-lived connection; clients
//! read a paginated snapshot of the current set. The crate holds the three
//! parts with real invariants: the registry of records, the codec for the
//! two inbound payload shapes, and the per-connection state machine that
//! maps inbound events to registry mutations and guarantees removal of the
//! record when its connection ends.

pub mod codec;
pub mod ip;
pub mod json;
pub mod metrics;
pub mod protocol;
pub mod record;
pub mod registry;

pub use codec::{ConnectMessage, GameMessage};
pub use codec::{parse_connect_message, parse_game_message};
pub use ip::IpAddress;
pub use metrics::{Metrics, register_custom_metrics};
pub use record::GameServer;
pub use protocol::{Connection, InboundEvent, Phase, StepEffect};
pub use registry::{Pagination, ServerList};
