//! Lifecycle management for named network instances: a bounded event log,
//! the per-instance launcher state machine, the instance registry and the
//! self-suspending status broadcaster.

pub mod event_log;
pub mod status;
pub mod config;
pub mod broadcaster;
pub mod launcher;
pub mod registry;

pub use event_log::{Event, EventLog, EVENT_LOG_CAPACITY};
pub use status::{NodeInfo, PeerInfo, Route, StunInfo};
pub use launcher::{event_stamp, Data, Launcher, LauncherState, NetworkInstanceInfo};
pub use broadcaster::{Broadcaster, IDLE_TICK_LIMIT};
pub use config::{parse_network_config, ConfigError, EngineConfig, NetworkConfig, VpnPortalConfig};
pub use registry::{collect_network_infos, start_network_instance, stop_network_instance, Registry, RegistryError};
