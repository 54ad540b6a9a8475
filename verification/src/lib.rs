//! A typed model of the `launchd` property-list job-description schema.
//!
//! The crate models one `launchd` job as a [`LaunchAgent`](launchagent::LaunchAgent)
//! value, offers builders to assemble one field by field, and renders a job to
//! the value tree of an XML property list. Every optional field that is unset
//! is omitted from the rendered dictionary; every present field appears under
//! its exact historical key name. The rendering is specified and verified down
//! to the value tree; the XML wire encoding itself is delegated to the `plist`
//! crate behind a small trusted boundary.

pub mod codec;
pub mod constraints;
pub mod defaults;
pub mod ipc;
pub mod keep_alive;
pub mod launchagent;
pub mod triggers;
pub mod unions;
pub mod value;

pub use codec::{EncodeError, plist_file_path};
pub use constraints::{ProcessType, ResourceLimits, ResourceLimitsBuilder, SessionType};
pub use defaults::default_false;
pub use ipc::{
    Bonjour, InetdCompatibility, MachService, MachServiceConfig, Socket, SocketFamily,
    SocketProtocol, SocketType, SocketValue,
};
pub use keep_alive::KeepAlive;
pub use launchagent::{BuildError, LaunchAgent, LaunchAgentBuilder};
pub use triggers::{CalendarInterval, CalendarIntervalBuilder};
pub use unions::{StringOrU32, StringOrVec};
pub use value::PlistValue;
pub use value::SpecValue;
