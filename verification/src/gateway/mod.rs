pub mod event;
pub mod event_data;
pub mod feed;
pub mod intents;
pub mod laws;
pub mod session;
pub mod sharding;

pub use event::{Frame, Identify, IdentifyConnectionProperty, IdentifySummary, RawGatewayEvent};
pub use event_data::{DispatchData, GatewayEvent, HelloData, MessageCreateData, ReadyData};
pub use feed::EventFeed;
pub use intents::Intents;
pub use session::{
    first_heartbeat_delay, CloseFrame, Gateway, Jitter, Reaction, Status, Tick,
};
pub use sharding::{get_sharding, shard_index};
