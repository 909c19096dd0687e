//! Client library for discovering and controlling smart light bulbs over a
//! JSON-over-UDP protocol.
//!
//! The library is organised around plain, verified data and decision logic:
//! value types for lighting parameters, the command payload and status cache,
//! the wire-format encoders, the retrying command transport, the discovery
//! collector and the push-notification manager. All socket work is done by
//! the caller through small port traits; the logic that decides what to send,
//! how to retry, how to deduplicate and whom to notify is verified here.

pub mod codec;
pub mod config;
pub mod discovery;
pub mod errors;
pub mod history;
pub mod json;
pub mod light;
pub mod net;
pub mod payload;
pub mod push;
pub mod response;
pub mod room;
pub mod status;
pub mod table;
pub mod transport;
pub mod text;
pub mod types;

pub use types::Brightness;
pub use types::Color;
pub use types::ColorRGBW;
pub use types::ColorRGBWW;
pub use types::FanDirection;
pub use types::FanMode;
pub use types::FanSpeed;
pub use types::FanState;
pub use types::HueSaturation;
pub use types::Kelvin;
pub use types::PowerMode;
pub use types::Ratio;
pub use types::SceneMode;
pub use types::Speed;
pub use types::White;
pub use payload::Payload;
pub use status::LastSet;
pub use status::LightStatus;
pub use status::BulbStatus;
pub use status::BulbStatusResult;
pub use errors::Error;
pub use net::Ipv4;
pub use history::HistoryEntry;
pub use history::HistorySummary;
pub use history::MessageHistory;
pub use history::MessageType;
pub use light::Light;
pub use response::LightingResponse;
pub use response::LightingResponseType;
pub use discovery::DiscoveredBulb;
pub use discovery::DiscoveryCollector;
pub use push::PushManager;
pub use push::PushDiagnostics;
pub use push::Dispatch;
pub use push::StateCallback;
pub use push::DiscoveryCallback;
pub use push::generate_mac;
pub use config::BulbClass;
pub use config::BulbType;
pub use config::Features;
pub use config::KelvinRange;
pub use config::SystemConfig;
pub use room::Room;
